//! The mathematical model of the catalog: spec functions describing what each
//! query returns and what each mutation does to the stored rows, and the
//! general laws of the layer, proved once and for all.

use vstd::prelude::*;
use crate::photo::{Photo, PhotoView, new_row};

verus! {

/// The views of a sequence of photo records.
pub open spec fn views_of(s: Seq<Photo>) -> Seq<PhotoView> {
    s.map_values(|p: Photo| p@)
}

/// The views of a sequence of strings.
pub open spec fn strs_of(s: Seq<String>) -> Seq<Seq<char>> {
    s.map_values(|x: String| x@)
}

/// The views of a sequence of photo pairs (the argument of a move).
pub open spec fn pair_views(s: Seq<(Photo, Photo)>) -> Seq<(PhotoView, PhotoView)> {
    s.map_values(|pr: (Photo, Photo)| (pr.0@, pr.1@))
}

/// Whether some stored row carries the given uid.
pub open spec fn has_uid(rows: Seq<PhotoView>, uid: Seq<char>) -> bool {
    exists|i: int| 0 <= i < rows.len() && #[trigger] rows[i].uid == uid
}

/// The uids of the stored rows, in row order.
pub open spec fn uids_of(rows: Seq<PhotoView>) -> Seq<Seq<char>> {
    rows.map_values(|v: PhotoView| v.uid)
}

/// Whether no two stored rows share a uid (the catalog's uniqueness
/// invariant, enforced by the store's constraint on `uid`).
pub open spec fn uid_distinct(rows: Seq<PhotoView>) -> bool {
    uids_of(rows).no_duplicates()
}

/// The predicate selecting rows that lie exactly in the given path.
pub open spec fn path_is(path: Seq<char>) -> spec_fn(PhotoView) -> bool {
    |v: PhotoView| v.path == path
}

/// The predicate selecting rows whose path is one of the given paths.
pub open spec fn path_in(paths: Seq<Seq<char>>) -> spec_fn(PhotoView) -> bool {
    |v: PhotoView| paths.contains(v.path)
}

/// The predicate keeping rows that do not carry the given uid.
pub open spec fn uid_is_not(uid: Seq<char>) -> spec_fn(PhotoView) -> bool {
    |v: PhotoView| v.uid != uid
}

/// The rows that lie in the given path, in row order.
pub open spec fn rows_in_path(rows: Seq<PhotoView>, path: Seq<char>) -> Seq<PhotoView> {
    rows.filter(path_is(path))
}

/// The rows whose path is one of the given paths, in row order.
pub open spec fn rows_in_paths(rows: Seq<PhotoView>, paths: Seq<Seq<char>>) -> Seq<PhotoView> {
    rows.filter(path_in(paths))
}

/// What removing one uid leaves behind: every row but those carrying it.
pub open spec fn remove_uid(rows: Seq<PhotoView>, uid: Seq<char>) -> Seq<PhotoView> {
    rows.filter(uid_is_not(uid))
}

/// What removing the first `k` records of a batch leaves behind, in batch
/// order.
pub open spec fn removed_batch(rows: Seq<PhotoView>, ps: Seq<PhotoView>, k: int) -> Seq<PhotoView>
    decreases k,
{
    if k <= 0 {
        rows
    } else {
        remove_uid(removed_batch(rows, ps, k - 1), ps[k - 1].uid)
    }
}

/// What moving one uid does: the rows carrying it take the new filename and
/// path; every other row is untouched.
pub open spec fn move_uid(
    rows: Seq<PhotoView>,
    uid: Seq<char>,
    filename: Seq<char>,
    path: Seq<char>,
) -> Seq<PhotoView> {
    rows.map_values(
        |v: PhotoView|
            if v.uid == uid {
                PhotoView { filename: filename, path: path, ..v }
            } else {
                v
            },
    )
}

/// What applying the first `k` moves of a batch does, in batch order. Each
/// pair moves the uid of its first component to the filename and path of its
/// second.
pub open spec fn moved_batch(
    rows: Seq<PhotoView>,
    pairs: Seq<(PhotoView, PhotoView)>,
    k: int,
) -> Seq<PhotoView>
    decreases k,
{
    if k <= 0 {
        rows
    } else {
        move_uid(
            moved_batch(rows, pairs, k - 1),
            pairs[k - 1].0.uid,
            pairs[k - 1].1.filename,
            pairs[k - 1].1.path,
        )
    }
}

/// Row `n` of `news` is the row freshly inserted for the record `p`: it
/// carries `p`'s caller-written fields, some storage-assigned id and the
/// documented defaults, and `p`'s uid appeared in no earlier row.
pub open spec fn is_fresh_insert(news: Seq<PhotoView>, n: int, p: PhotoView) -> bool {
    &&& (exists|i: int| news[n] == new_row(p.filename, p.path, p.uid, p.md5, i))
    &&& !has_uid(news.take(n), p.uid)
}

/// `news` is `olds` with the first `k` records of the batch `ps` appended in
/// batch order, each a fresh insert.
pub open spec fn inserted_rows(
    olds: Seq<PhotoView>,
    news: Seq<PhotoView>,
    ps: Seq<PhotoView>,
    k: int,
) -> bool {
    &&& 0 <= k <= ps.len()
    &&& news.len() == olds.len() + k
    &&& news.take(olds.len() as int) == olds
    &&& forall|j: int| 0 <= j < k ==> is_fresh_insert(news, olds.len() + j, #[trigger] ps[j])
}

/// Filtering a sequence and filtering its multiset agree.
pub proof fn lemma_filter_to_multiset<A>(s: Seq<A>, pred: spec_fn(A) -> bool)
    ensures
        s.filter(pred).to_multiset() == s.to_multiset().filter(pred),
    decreases s.len(),
{
    broadcast use vstd::seq_lib::group_seq_properties;
    broadcast use vstd::multiset::group_multiset_axioms;
    broadcast use vstd::multiset::group_multiset_properties;

    if s.len() == 0 {
        assert(s.filter(pred) =~= Seq::<A>::empty());
        assert(s.filter(pred).to_multiset() =~= s.to_multiset().filter(pred));
    } else {
        let t = s.drop_last();
        let x = s.last();
        lemma_filter_to_multiset(t, pred);
        assert(s =~= t.push(x));
        t.lemma_filter_push(x, pred);
        t.to_multiset_ensures();
        t.filter(pred).to_multiset_ensures();
        assert(s.filter(pred).to_multiset() =~= s.to_multiset().filter(pred));
    }
}

/// Filtering with predicates that agree on every element gives the same rows.
pub proof fn lemma_filter_equiv<A>(s: Seq<A>, p: spec_fn(A) -> bool, q: spec_fn(A) -> bool)
    requires
        forall|a: A| #[trigger] p(a) == #[trigger] q(a),
    ensures
        s.filter(p) == s.filter(q),
    decreases s.len(),
{
    if s.len() == 0 {
        assert(s.filter(p) =~= s.filter(q));
    } else {
        let t = s.drop_last();
        let x = s.last();
        lemma_filter_equiv(t, p, q);
        assert(s =~= t.push(x));
        t.lemma_filter_push(x, p);
        t.lemma_filter_push(x, q);
    }
}

/// A filter of a duplicate-free sequence is duplicate-free.
pub proof fn lemma_filter_no_duplicates<A>(s: Seq<A>, pred: spec_fn(A) -> bool)
    requires
        s.no_duplicates(),
    ensures
        s.filter(pred).no_duplicates(),
    decreases s.len(),
{
    if s.len() != 0 {
        let t = s.drop_last();
        let x = s.last();
        assert(t.no_duplicates());
        lemma_filter_no_duplicates(t, pred);
        assert(s =~= t.push(x));
        t.lemma_filter_push(x, pred);
        if pred(x) {
            if t.filter(pred).contains(x) {
                t.lemma_filter_contains_rev(pred, x);
                assert(t.contains(x));
                assert(false);
            }
            assert(t.filter(pred).push(x).no_duplicates());
        }
    }
}

/// A filter that keeps every element returns the sequence unchanged.
pub proof fn lemma_filter_all<A>(s: Seq<A>, pred: spec_fn(A) -> bool)
    requires
        forall|i: int| 0 <= i < s.len() ==> pred(#[trigger] s[i]),
    ensures
        s.filter(pred) == s,
    decreases s.len(),
{
    if s.len() == 0 {
        assert(s.filter(pred) =~= s);
    } else {
        let t = s.drop_last();
        let x = s.last();
        lemma_filter_all(t, pred);
        assert(s =~= t.push(x));
        t.lemma_filter_push(x, pred);
        assert(s.filter(pred) =~= s);
    }
}

/// Idempotent removal: removing a uid that no stored row carries leaves the
/// catalog exactly as it was.
pub proof fn lemma_remove_missing_uid_noop(rows: Seq<PhotoView>, uid: Seq<char>)
    requires
        !has_uid(rows, uid),
    ensures
        remove_uid(rows, uid) == rows,
{
    assert(forall|i: int| 0 <= i < rows.len() ==> #[trigger] rows[i].uid != uid);
    lemma_filter_all(rows, uid_is_not(uid));
    assert(forall|v: PhotoView| #[trigger] uid_is_not(uid)(v) == (v.uid != uid));
}

/// Idempotent move: moving a uid that no stored row carries leaves the
/// catalog exactly as it was.
pub proof fn lemma_move_missing_uid_noop(
    rows: Seq<PhotoView>,
    uid: Seq<char>,
    filename: Seq<char>,
    path: Seq<char>,
)
    requires
        !has_uid(rows, uid),
    ensures
        move_uid(rows, uid, filename, path) == rows,
{
    assert(forall|i: int| 0 <= i < rows.len() ==> #[trigger] rows[i].uid != uid);
    assert(move_uid(rows, uid, filename, path) =~= rows);
}

/// Round trip: inserting a record and then querying its path finds the
/// inserted row — with exactly its fields — once more than before.
pub proof fn lemma_insert_then_query_round_trip(rows: Seq<PhotoView>, v: PhotoView)
    ensures
        rows_in_path(rows.push(v), v.path).to_multiset().count(v) == rows_in_path(
            rows,
            v.path,
        ).to_multiset().count(v) + 1,
{
    broadcast use vstd::seq_lib::group_seq_properties;

    let pred = path_is(v.path);
    rows.lemma_filter_push(v, pred);
    rows.filter(pred).to_multiset_ensures();
    assert(rows_in_path(rows.push(v), v.path) == rows.filter(pred).push(v));
    assert(rows.filter(pred).push(v).to_multiset() =~= rows.filter(pred).to_multiset().insert(v));
}

/// A whole insert batch that went through had only fresh, pairwise-distinct
/// uids; the old rows survive as a prefix; the new uid list is the old one
/// with the batch's uids appended; and a duplicate-free catalog stays
/// duplicate-free. (In particular, a batch holding a uid that the catalog
/// already knows, or the same uid twice, can never run to completion.)
pub proof fn lemma_full_batch_insert_uids(
    olds: Seq<PhotoView>,
    news: Seq<PhotoView>,
    ps: Seq<PhotoView>,
)
    requires
        inserted_rows(olds, news, ps, ps.len() as int),
    ensures
        forall|j: int| 0 <= j < ps.len() ==> !has_uid(olds, #[trigger] ps[j].uid),
        forall|i: int, j: int|
            0 <= i < j < ps.len() ==> (#[trigger] ps[i].uid) != (#[trigger] ps[j].uid),
        uids_of(news) == uids_of(olds) + uids_of(ps),
        uid_distinct(olds) ==> uid_distinct(news),
{
    let n = olds.len() as int;
    assert forall|j: int| 0 <= j < ps.len() implies !has_uid(olds, #[trigger] ps[j].uid) by {
        assert(is_fresh_insert(news, n + j, ps[j]));
        if has_uid(olds, ps[j].uid) {
            let i = choose|i: int| 0 <= i < olds.len() && #[trigger] olds[i].uid == ps[j].uid;
            assert(news.take(n + j)[i] == news[i]);
            assert(news[i] == news.take(n)[i]);
            assert(has_uid(news.take(n + j), ps[j].uid));
        }
    }
    assert forall|i: int, j: int| 0 <= i < j < ps.len() implies (#[trigger] ps[i].uid)
        != (#[trigger] ps[j].uid) by {
        assert(is_fresh_insert(news, n + i, ps[i]));
        assert(is_fresh_insert(news, n + j, ps[j]));
        if ps[i].uid == ps[j].uid {
            assert(news.take(n + j)[n + i] == news[n + i]);
            assert(news[n + i].uid == ps[i].uid);
            assert(has_uid(news.take(n + j), ps[j].uid));
        }
    }
    assert forall|j: int| 0 <= j < ps.len() implies (#[trigger] news[n + j].uid) == ps[j].uid by {
        assert(is_fresh_insert(news, n + j, ps[j]));
    }
    assert forall|i: int| 0 <= i < n implies (#[trigger] news[i]) == olds[i] by {
        assert(news.take(n)[i] == news[i]);
    }
    assert(uids_of(news) =~= uids_of(olds) + uids_of(ps));
    if uid_distinct(olds) {
        assert forall|i: int, j: int|
            0 <= i < j < news.len() implies (#[trigger] news[i].uid) != (#[trigger] news[j].uid) by {
            if j < n {
                assert(uids_of(olds)[i] == olds[i].uid);
                assert(uids_of(olds)[j] == olds[j].uid);
            } else {
                assert(is_fresh_insert(news, j, ps[j - n]));
                if news[i].uid == news[j].uid {
                    assert(news.take(j)[i] == news[i]);
                    assert(has_uid(news.take(j), ps[j - n].uid));
                }
            }
        }
        assert forall|i: int, j: int|
            0 <= i < j < uids_of(news).len() implies uids_of(news)[i] != uids_of(news)[j] by {
            assert(uids_of(news)[i] == news[i].uid);
            assert(uids_of(news)[j] == news[j].uid);
        }
    }
}

} // verus!
