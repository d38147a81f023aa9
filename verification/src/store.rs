//! The blog-post store: one append-only table whose rows get ascending ids
//! starting at one. This is the model the persistence layer must follow;
//! every query below is verified against it.

use vstd::prelude::*;
use crate::chance::random_below;
use crate::post::BlogPost;

verus! {

/// Why a lookup can fail.
#[derive(Clone, Copy, PartialEq, Eq, Structural, Debug)]
pub enum StoreError {
    /// No row carries the requested id.
    NotFound,
}

/// The post as the store keeps it: the input record with the assigned id.
pub open spec fn stored_post(p: BlogPost, id: i64) -> BlogPost {
    BlogPost { id: Some(id), ..p }
}

/// A well-formed table: the row at index `i` carries id `i + 1`, and there
/// is room to assign the next id.
pub open spec fn rows_wf(rows: Seq<BlogPost>) -> bool {
    &&& rows.len() < 0x7fffffffffffffff
    &&& forall|i: int| 0 <= i < rows.len() ==> (#[trigger] rows[i]).id == Some((i + 1) as i64)
}

/// What fetching by id returns: the row with that id, if the table has one.
pub open spec fn spec_get(rows: Seq<BlogPost>, id: int) -> Option<BlogPost> {
    if 1 <= id <= rows.len() {
        Some(rows[id - 1])
    } else {
        None
    }
}

/// What "latest n" returns: the last rows, newest (highest id) first.
pub open spec fn spec_latest(rows: Seq<BlogPost>, limit: int) -> Seq<BlogPost> {
    Seq::new(vstd::math::min(limit, rows.len() as int) as nat, |i: int| rows[rows.len() - 1 - i])
}

/// The in-memory blog-post table.
pub struct BlogStore {
    pub rows: Vec<BlogPost>,
}

impl View for BlogStore {
    type V = Seq<BlogPost>;

    open spec fn view(&self) -> Seq<BlogPost> {
        self.rows@
    }
}

impl BlogStore {
    /// Whether the table is well formed.
    pub open spec fn wf(&self) -> bool {
        rows_wf(self@)
    }

    /// An empty table.
    pub fn new() -> (r: BlogStore)
        ensures
            r.wf(),
            r@ == Seq::<BlogPost>::empty(),
    {
        let rows: Vec<BlogPost> = Vec::new();
        proof {
            assert(rows@ =~= Seq::<BlogPost>::empty());
        }
        BlogStore { rows }
    }

    /// How many posts the table holds.
    pub fn count(&self) -> (r: usize)
        ensures
            r == self@.len(),
    {
        self.rows.len()
    }
}

/// Appends the post under the next id and returns that id.
pub fn save_blog_post(store: &mut BlogStore, post: &BlogPost) -> (id: i64)
    requires
        old(store).wf(),
        old(store)@.len() + 1 < 0x7fffffffffffffff,
    ensures
        final(store).wf(),
        id == old(store)@.len() + 1,
        final(store)@ == old(store)@.push(stored_post(*post, id)),
{
    let id: i64 = (store.rows.len() as i64) + 1;
    let mut saved = post.duplicate();
    saved.id = Some(id);
    proof {
        assert(saved == stored_post(*post, id));
    }
    store.rows.push(saved);
    proof {
        let after = store@;
        assert forall|i: int| 0 <= i < after.len() implies (#[trigger] after[i]).id == Some(
            (i + 1) as i64,
        ) by {
            if i < after.len() - 1 {
                assert(after[i] == old(store)@[i]);
            }
        }
    }
    id
}

/// Fetches the post that was saved under `id`; every id from one up to the
/// table's length is present, nothing else is.
pub fn get_blog_post_by_id(store: &BlogStore, id: i64) -> (r: Result<BlogPost, StoreError>)
    requires
        store.wf(),
    ensures
        match r {
            Ok(p) => spec_get(store@, id as int) == Some(p),
            Err(e) => spec_get(store@, id as int) is None && e == StoreError::NotFound,
        },
{
    if 1 <= id && id <= store.rows.len() as i64 {
        let index = (id - 1) as usize;
        proof {
            assert(index < store@.len());
        }
        Ok(store.rows[index].duplicate())
    } else {
        Err(StoreError::NotFound)
    }
}

/// Returns up to `limit` posts, newest first.
pub fn get_latest_blog_posts(store: &BlogStore, limit: usize) -> (r: Vec<BlogPost>)
    requires
        store.wf(),
    ensures
        r@ =~= spec_latest(store@, limit as int),
{
    let total = store.rows.len();
    let take = if limit < total {
        limit
    } else {
        total
    };
    let mut out: Vec<BlogPost> = Vec::new();
    let mut i: usize = 0;
    while i < take
        invariant
            take <= total,
            total == store@.len(),
            i <= take,
            out@.len() == i,
            forall|j: int| 0 <= j < i ==> out@[j] == store@[total - 1 - j],
        decreases take - i,
    {
        out.push(store.rows[total - 1 - i].duplicate());
        i = i + 1;
    }
    proof {
        assert(out@ =~= spec_latest(store@, limit as int));
    }
    out
}

/// Returns one of the stored posts, chosen at random; fails only on an
/// empty table.
pub fn get_random_blog_post(store: &BlogStore) -> (r: Result<BlogPost, StoreError>)
    requires
        store.wf(),
    ensures
        match r {
            Ok(p) => exists|i: int| 0 <= i < store@.len() && p == store@[i],
            Err(e) => store@.len() == 0 && e == StoreError::NotFound,
        },
{
    let total = store.rows.len();
    if total == 0 {
        Err(StoreError::NotFound)
    } else {
        let index = random_below(total);
        Ok(store.rows[index].duplicate())
    }
}

/// The page size the read API grants: the requested size, ten when none was
/// requested, and never more than the server-side cap of one hundred.
pub fn effective_limit(requested: Option<usize>) -> (r: usize)
    ensures
        r == vstd::math::min(
            match requested {
                Some(n) => n as int,
                None => 10,
            },
            100,
        ),
{
    let base = match requested {
        Some(n) => n,
        None => 10,
    };
    if base < 100 {
        base
    } else {
        100
    }
}

/// Saving a post and fetching its returned id gives back exactly the saved
/// record: the input with that id, every other field unchanged.
pub proof fn lemma_save_round_trip(rows: Seq<BlogPost>, p: BlogPost)
    requires
        rows_wf(rows),
        rows.len() + 1 < 0x7fffffffffffffff,
    ensures
        ({
            let id = rows.len() + 1;
            let after = rows.push(stored_post(p, id as i64));
            &&& rows_wf(after)
            &&& spec_get(after, id as int) == Some(stored_post(p, id as i64))
            &&& stored_post(p, id as i64).timestamp == p.timestamp
            &&& stored_post(p, id as i64).content == p.content
            &&& stored_post(p, id as i64).location == p.location
            &&& stored_post(p, id as i64).activity == p.activity
            &&& stored_post(p, id as i64).image_url == p.image_url
        }),
{
    let id = rows.len() + 1;
    let after = rows.push(stored_post(p, id as i64));
    assert forall|i: int| 0 <= i < after.len() implies (#[trigger] after[i]).id == Some(
        (i + 1) as i64,
    ) by {
        if i < rows.len() {
            assert(after[i] == rows[i]);
        }
    }
    assert(after[id - 1] == stored_post(p, id as i64));
}

/// "Latest n" lists ids in strictly descending order, starting from the
/// newest, and never more than `limit` of them.
pub proof fn lemma_latest_descending(rows: Seq<BlogPost>, limit: int)
    requires
        rows_wf(rows),
        limit >= 0,
    ensures
        ({
            let r = spec_latest(rows, limit);
            &&& r.len() == vstd::math::min(limit, rows.len() as int)
            &&& r.len() <= limit
            &&& forall|i: int| 0 <= i < r.len() ==> (#[trigger] r[i]).id == Some(
                (rows.len() - i) as i64,
            )
            &&& forall|i: int, j: int|
                0 <= i < j < r.len() ==> (#[trigger] r[i]).id.unwrap() > (#[trigger] r[j]).id.unwrap()
        }),
{
    let r = spec_latest(rows, limit);
    assert forall|i: int| 0 <= i < r.len() implies (#[trigger] r[i]).id == Some(
        (rows.len() - i) as i64,
    ) by {
        assert(r[i] == rows[rows.len() - 1 - i]);
    }
}

} // verus!
