//! The catalog: one connection to the store, owned exclusively, with the
//! query and mutation operations of the layer. Exclusive access is what the
//! `&mut` receivers of the mutations demand; a hosting process that shares
//! one catalog among concurrent callers wraps it in its own lock and holds
//! the lock across each call.

use vstd::prelude::*;
use vstd::string::StrSliceExecFns;
use crate::error::DbError;
use crate::model::{
    views_of, strs_of, pair_views, has_uid, path_is, path_in, rows_in_path, rows_in_paths,
    removed_batch, moved_batch, is_fresh_insert, inserted_rows,
    lemma_filter_to_multiset, lemma_filter_equiv, lemma_filter_no_duplicates,
};
use crate::order::{allowed_column, is_allowed_column, sorted_rows, rows_le};
use crate::photo::{Photo, PhotoView};
use crate::store::{
    stored_rows, has_photo_table, open_connection, photo_table_sql, apply_schema, catalog_schema,
    exec_insert, exec_delete, exec_move, select_uids, select_distinct_paths, select_all_photos,
    select_photos_in_path_ordered,
};

verus! {

/// Whether `prefix` is a character-for-character prefix of `s`.
fn str_starts_with(s: &String, prefix: &String) -> (b: bool)
    ensures
        b == prefix@.is_prefix_of(s@),
{
    let n = prefix.as_str().unicode_len();
    let m = s.as_str().unicode_len();
    if n > m {
        assert(!prefix@.is_prefix_of(s@));
        return false;
    }
    let mut i: usize = 0;
    while i < n
        invariant
            i <= n,
            n <= m,
            n == prefix@.len(),
            m == s@.len(),
            forall|j: int| 0 <= j < i ==> prefix@[j] == s@[j],
        decreases n - i,
    {
        if prefix.as_str().get_char(i) != s.as_str().get_char(i) {
            assert(prefix@[i as int] != s@[i as int]);
            assert(!prefix@.is_prefix_of(s@)) by {
                if prefix@.is_prefix_of(s@) {
                    assert(prefix@[i as int] == s@.subrange(0, n as int)[i as int]);
                }
            }
            return false;
        }
        i += 1;
    }
    assert(prefix@ =~= s@.subrange(0, n as int));
    true
}

/// Whether `x` is one of the strings of `v`.
fn vec_contains_str(v: &Vec<String>, x: &String) -> (b: bool)
    ensures
        b == strs_of(v@).contains(x@),
{
    let mut i: usize = 0;
    while i < v.len()
        invariant
            i <= v@.len(),
            forall|j: int| 0 <= j < i ==> strs_of(v@)[j] != x@,
        decreases v@.len() - i,
    {
        if v[i] == *x {
            assert(strs_of(v@)[i as int] == x@);
            return true;
        }
        assert(strs_of(v@)[i as int] == v@[i as int]@);
        i += 1;
    }
    assert(forall|j: int| 0 <= j < strs_of(v@).len() ==> strs_of(v@)[j] != x@);
    false
}

/// The records of `all` whose path is one of `paths`, in their given order.
fn filter_photos_in_paths(all: Vec<Photo>, paths: &Vec<String>) -> (out: Vec<Photo>)
    ensures
        views_of(out@) == views_of(all@).filter(path_in(strs_of(paths@))),
{
    broadcast use vstd::seq_lib::group_seq_properties;

    let ghost pred = path_in(strs_of(paths@));
    let mut out: Vec<Photo> = Vec::new();
    let mut i: usize = 0;
    while i < all.len()
        invariant
            i <= all@.len(),
            pred == path_in(strs_of(paths@)),
            views_of(out@) == views_of(all@.take(i as int)).filter(pred),
        decreases all@.len() - i,
    {
        let keep = vec_contains_str(paths, &all[i].path);
        proof {
            assert(all@.take(i + 1 as int) =~= all@.take(i as int).push(all@[i as int]));
            assert(views_of(all@.take(i as int).push(all@[i as int])) =~= views_of(
                all@.take(i as int),
            ).push(all@[i as int]@));
            views_of(all@.take(i as int)).lemma_filter_push(all@[i as int]@, pred);
            assert(pred(all@[i as int]@) == keep);
        }
        if keep {
            out.push(all[i].clone());
        }
        i += 1;
    }
    proof {
        assert(all@.take(all@.len() as int) =~= all@);
    }
    out
}

/// The bootstrap decision on what the schema lookup found: a stored text
/// equal to the catalog schema accepts the store as it stands; any other
/// text refuses it with `SchemaMismatch`, and nothing else ever does; an
/// absent table asks for the schema to be applied.
pub fn bootstrap_decision(found: &Option<String>) -> (d: Result<bool, DbError>)
    ensures
        d is Ok && d->Ok_0 <==> (found is Some && found->Some_0@
            == crate::store::catalog_schema_text()),
        d is Ok && !d->Ok_0 <==> found is None,
        d is Err <==> (found is Some && found->Some_0@ != crate::store::catalog_schema_text()),
        d is Err ==> d->Err_0 == DbError::SchemaMismatch,
{
    match found {
        Some(text) => {
            if *text == catalog_schema().to_owned() {
                Ok(true)
            } else {
                Err(DbError::SchemaMismatch)
            }
        },
        None => Ok(false),
    }
}

/// The catalog storage layer: a single connection to the photo store. All
/// contracts speak of `rows()`, the stored rows in storage order, and
/// `wf()`, the presence of the bootstrapped catalog table.
pub struct Catalog {
    conn: rusqlite::Connection,
}

impl Catalog {
    /// The catalog rows behind this connection, in storage order.
    pub closed spec fn rows(&self) -> Seq<PhotoView> {
        stored_rows(self.conn)
    }

    /// Well-formedness: the catalog table has been bootstrapped.
    pub closed spec fn wf(&self) -> bool {
        has_photo_table(self.conn)
    }

    /// Opens (or creates) the backing store and ensures the catalog table
    /// exists: when the store has no `photo` table the fixed schema is
    /// applied; when it has one, its stored schema text must be exactly the
    /// catalog schema, and a table of any other shape is refused with
    /// `SchemaMismatch` — the other contracts of the layer hold only of the
    /// catalog schema's table. The accept/refuse/initialize decision on the
    /// stored text is `bootstrap_decision`, whose contract pins it for every
    /// lookup result. Any failure here is a fatal startup condition for the
    /// hosting process; no connection is handed out.
    pub fn open_or_initialize(store_path: &str) -> (r: Result<Catalog, DbError>)
        ensures
            r is Ok ==> r->Ok_0.wf(),
    {
        let mut conn = match open_connection(store_path) {
            Ok(c) => c,
            Err(e) => { return Err(e); },
        };
        let found = match photo_table_sql(&conn) {
            Ok(f) => f,
            Err(e) => { return Err(e); },
        };
        match bootstrap_decision(&found) {
            Ok(true) => Ok(Catalog { conn }),
            Ok(false) => {
                match apply_schema(&mut conn) {
                    Ok(()) => Ok(Catalog { conn }),
                    Err(e) => Err(e),
                }
            },
            Err(e) => Err(e),
        }
    }

    /// Bootstrap idempotence: running the schema step on a catalog whose
    /// table already stands is a no-op beyond the schema check — whatever it
    /// returns, the rows afterwards are exactly the rows before, no schema
    /// statement is applied to a store whose table is in place, and such a
    /// store is never refused: an error can only be the engine failing the
    /// lookup itself, never the schema-mismatch refusal.
    pub fn ensure_schema(&mut self) -> (r: Result<(), DbError>)
        requires
            old(self).wf(),
        ensures
            final(self).wf(),
            final(self).rows() == old(self).rows(),
            r is Err ==> !(r->Err_0 is SchemaMismatch),
    {
        let found = match photo_table_sql(&self.conn) {
            Ok(f) => f,
            Err(e) => { return Err(e); },
        };
        match bootstrap_decision(&found) {
            Ok(true) => Ok(()),
            Ok(false) => {
                match apply_schema(&mut self.conn) {
                    Ok(()) => Ok(()),
                    Err(e) => Err(e),
                }
            },
            Err(e) => Err(e),
        }
    }

    /// All identifiers currently in the catalog: one per stored row, in no
    /// particular order beyond storage order.
    pub fn get_existing_uids(&self) -> (r: Result<Vec<String>, DbError>)
        requires
            self.wf(),
        ensures
            r is Ok ==> strs_of(r->Ok_0@).to_multiset() == crate::model::uids_of(
                self.rows(),
            ).to_multiset(),
    {
        select_uids(&self.conn)
    }

    /// The distinct paths known to the catalog whose first characters equal
    /// `prefix` exactly — a character-prefix match, not a path-segment one —
    /// each exactly once.
    pub fn get_paths_starting_with(&self, prefix: &String) -> (r: Result<Vec<String>, DbError>)
        requires
            self.wf(),
        ensures
            r is Ok ==> r->Ok_0@.map_values((|s: String| s@)).no_duplicates(),
            r is Ok ==> (forall|p: Seq<char>|
                strs_of(r->Ok_0@).contains(p) <==> (self.rows().map_values(
                    (|v: PhotoView| v.path),
                ).contains(p) && prefix@.is_prefix_of(p))),
    {
        let all = match select_distinct_paths(&self.conn) {
            Ok(v) => v,
            Err(e) => { return Err(e); },
        };
        let ghost pred = |p: Seq<char>| prefix@.is_prefix_of(p);
        let mut out: Vec<String> = Vec::new();
        let mut i: usize = 0;
        while i < all.len()
            invariant
                i <= all@.len(),
                pred == (|p: Seq<char>| prefix@.is_prefix_of(p)),
                strs_of(out@) == strs_of(all@.take(i as int)).filter(pred),
        decreases all@.len() - i,
        {
            broadcast use vstd::seq_lib::group_seq_properties;

            let keep = str_starts_with(&all[i], prefix);
            proof {
                assert(all@.take(i + 1 as int) =~= all@.take(i as int).push(all@[i as int]));
                assert(strs_of(all@.take(i as int).push(all@[i as int])) =~= strs_of(
                    all@.take(i as int),
                ).push(all@[i as int]@));
                strs_of(all@.take(i as int)).lemma_filter_push(all@[i as int]@, pred);
                assert(pred(all@[i as int]@) == keep);
            }
            if keep {
                out.push(all[i].clone());
            }
            i += 1;
        }
        proof {
            assert(all@.take(all@.len() as int) =~= all@);
            assert(strs_of(out@) == strs_of(all@).filter(pred));
            lemma_filter_no_duplicates(strs_of(all@), pred);
            assert forall|p: Seq<char>|
                strs_of(out@).contains(p) <==> (self.rows().map_values(
                    (|v: PhotoView| v.path),
                ).contains(p) && prefix@.is_prefix_of(p)) by {
                if strs_of(out@).contains(p) {
                    strs_of(all@).lemma_filter_contains_rev(pred, p);
                    assert(strs_of(all@).to_set().contains(p));
                }
                if strs_of(all@).contains(p) && pred(p) {
                    let k = choose|k: int|
                        0 <= k < strs_of(all@).len() && strs_of(all@)[k] == p;
                    strs_of(all@).lemma_filter_contains(pred, k);
                }
                if self.rows().map_values((|v: PhotoView| v.path)).contains(p) {
                    assert(self.rows().map_values((|v: PhotoView| v.path)).to_set().contains(p));
                }
            }
        }
        Ok(out)
    }

    /// All records whose path is exactly one of the given paths. An empty
    /// path list returns an empty listing without touching the store — no
    /// statement with an empty placeholder list is ever issued.
    pub fn get_photos_in_paths(&self, paths: &Vec<String>) -> (r: Result<Vec<Photo>, DbError>)
        requires
            self.wf(),
        ensures
            r is Ok ==> views_of(r->Ok_0@).to_multiset() == rows_in_paths(
                self.rows(),
                strs_of(paths@),
            ).to_multiset(),
            paths@.len() == 0 ==> r is Ok && r->Ok_0@.len() == 0,
            r is Err ==> !(r->Err_0 is InvalidSortColumn),
    {
        if paths.len() == 0 {
            let out: Vec<Photo> = Vec::new();
            proof {
                let pred = path_in(strs_of(paths@));
                assert(strs_of(paths@).len() == 0);
                assert forall|i: int| 0 <= i < self.rows().len() implies !(#[trigger] pred(
                    self.rows()[i],
                )) by {
                    assert(!strs_of(paths@).contains(self.rows()[i].path));
                }
                self.rows().lemma_all_neg_filter_empty(pred);
                assert(views_of(out@) =~= Seq::<PhotoView>::empty());
                assert(views_of(out@) == rows_in_paths(self.rows(), strs_of(paths@)));
            }
            return Ok(out);
        }
        let all = match select_all_photos(&self.conn) {
            Ok(v) => v,
            Err(e) => { return Err(e); },
        };
        let out = filter_photos_in_paths(all, paths);
        proof {
            let pred = path_in(strs_of(paths@));
            lemma_filter_to_multiset(views_of(all@), pred);
            lemma_filter_to_multiset(self.rows(), pred);
        }
        Ok(out)
    }

    /// All records whose path is exactly `path`, ordered by the given column
    /// names — ascending, or descending with `reverse`, uniformly. The
    /// column names are validated against the fixed allow-list of photo
    /// fields before any of them reaches the statement: exactly the listings
    /// with an unknown column are refused, with `InvalidSortColumn`. An
    /// empty column list returns the storage order.
    pub fn get_photos_in_path(
        &self,
        path: &String,
        sort_columns: &Vec<String>,
        reverse: bool,
    ) -> (r: Result<Vec<Photo>, DbError>)
        requires
            self.wf(),
        ensures
            r is Ok ==> views_of(r->Ok_0@).to_multiset() == rows_in_path(
                self.rows(),
                path@,
            ).to_multiset(),
            r is Ok ==> sorted_rows(views_of(r->Ok_0@), strs_of(sort_columns@), reverse),
            (r is Err && r->Err_0 is InvalidSortColumn) <==> (exists|i: int|
                0 <= i < sort_columns@.len() && !allowed_column(#[trigger] sort_columns@[i]@)),
    {
        let mut k: usize = 0;
        while k < sort_columns.len()
            invariant
                k <= sort_columns@.len(),
                forall|j: int| 0 <= j < k ==> allowed_column(#[trigger] sort_columns@[j]@),
            decreases sort_columns@.len() - k,
        {
            if !is_allowed_column(&sort_columns[k]) {
                return Err(DbError::InvalidSortColumn);
            }
            k += 1;
        }
        if sort_columns.len() == 0 {
            let mut single: Vec<String> = Vec::new();
            single.push(path.clone());
            let r = self.get_photos_in_paths(&single);
            match r {
                Ok(out) => {
                    proof {
                        assert forall|v: PhotoView|
                            #[trigger] path_in(strs_of(single@))(v) == path_is(path@)(v) by {
                            assert(strs_of(single@) =~= seq![path@]);
                            if strs_of(single@).contains(v.path) {
                                assert(v.path == path@);
                            }
                            if v.path == path@ {
                                assert(strs_of(single@)[0] == v.path);
                            }
                        }
                        lemma_filter_equiv(
                            self.rows(),
                            path_in(strs_of(single@)),
                            path_is(path@),
                        );
                        assert(strs_of(sort_columns@).len() == 0);
                        assert forall|a: PhotoView, b: PhotoView|
                            rows_le(strs_of(sort_columns@), a, b) by {}
                    }
                    Ok(out)
                },
                Err(e) => Err(e),
            }
        } else {
            let order_by = crate::order::order_clause(sort_columns, reverse);
            select_photos_in_path_ordered(
                &self.conn,
                path.as_str(),
                sort_columns,
                order_by.as_str(),
                reverse,
            )
        }
    }

    /// Inserts each record of the batch in order: its filename, path, uid
    /// and md5; the storage assigns the id and the defaults fill the rest.
    /// A batch that went through in full appended one fresh row per record,
    /// so a record whose uid the catalog already holds — or that an earlier
    /// record of the batch carries — makes the call fail, and the records
    /// before the failing one stay committed (each element is its own
    /// statement; there is no outer transaction around the batch). A failure
    /// of the constraint kind witnesses exactly that: the committed prefix
    /// ends at a record whose uid the catalog, or an earlier record of the
    /// batch, already carries.
    pub fn insert_photos(&mut self, photos: &Vec<Photo>) -> (r: Result<(), DbError>)
        requires
            old(self).wf(),
        ensures
            final(self).wf(),
            r is Ok ==> inserted_rows(
                old(self).rows(),
                final(self).rows(),
                views_of(photos@),
                photos@.len() as int,
            ),
            r is Err ==> (exists|k: int|
                0 <= k < photos@.len() && inserted_rows(
                    old(self).rows(),
                    final(self).rows(),
                    views_of(photos@),
                    k,
                ) && (r->Err_0 == DbError::Constraint ==> has_uid(
                    final(self).rows(),
                    views_of(photos@)[k].uid,
                ))),
    {
        broadcast use vstd::seq_lib::group_seq_properties;

        let ghost olds = old(self).rows();
        let ghost ps = views_of(photos@);
        proof {
            assert(olds.take(olds.len() as int) =~= olds);
        }
        let mut i: usize = 0;
        while i < photos.len()
            invariant
                i <= photos@.len(),
                self.wf(),
                olds == old(self).rows(),
                ps == views_of(photos@),
                inserted_rows(olds, self.rows(), ps, i as int),
            decreases photos@.len() - i,
        {
            let ghost before = self.rows();
            let p = &photos[i];
            let res = exec_insert(
                &mut self.conn,
                p.filename.as_str(),
                p.path.as_str(),
                p.uid.as_str(),
                p.md5.as_str(),
            );
            match res {
                Ok(()) => {
                    proof {
                        let news = self.rows();
                        let id = choose|id: int|
                            news == before.push(
                                crate::photo::new_row(
                                    p.filename@,
                                    p.path@,
                                    p.uid@,
                                    p.md5@,
                                    id,
                                ),
                            );
                        assert(news == before.push(
                            crate::photo::new_row(p.filename@, p.path@, p.uid@, p.md5@, id),
                        ));
                        assert(before.len() == olds.len() + i);
                        assert(ps[i as int] == photos@[i as int]@);
                        assert(news.take(olds.len() as int) =~= olds);
                        assert(news.take(before.len() as int) =~= before);
                        assert(!has_uid(before, ps[i as int].uid));
                        assert forall|j: int| 0 <= j < i + 1 implies is_fresh_insert(
                            news,
                            olds.len() + j,
                            #[trigger] ps[j],
                        ) by {
                            if j < i {
                                assert(is_fresh_insert(before, olds.len() + j, ps[j]));
                                let w = choose|w: int|
                                    before[olds.len() + j] == crate::photo::new_row(
                                        ps[j].filename,
                                        ps[j].path,
                                        ps[j].uid,
                                        ps[j].md5,
                                        w,
                                    );
                                assert(news[olds.len() + j] == before[olds.len() + j]);
                                assert(news[olds.len() + j] == crate::photo::new_row(
                                    ps[j].filename,
                                    ps[j].path,
                                    ps[j].uid,
                                    ps[j].md5,
                                    w,
                                ));
                                assert(news.take(olds.len() + j) =~= before.take(olds.len() + j));
                                assert(!has_uid(news.take(olds.len() + j), ps[j].uid));
                            } else {
                                assert(j == i);
                                assert(news[olds.len() + i] == crate::photo::new_row(
                                    p.filename@,
                                    p.path@,
                                    p.uid@,
                                    p.md5@,
                                    id,
                                ));
                                assert(ps[i as int].filename == p.filename@);
                                assert(ps[i as int].path == p.path@);
                                assert(ps[i as int].uid == p.uid@);
                                assert(ps[i as int].md5 == p.md5@);
                                assert(news[olds.len() + i] == crate::photo::new_row(
                                    ps[i as int].filename,
                                    ps[i as int].path,
                                    ps[i as int].uid,
                                    ps[i as int].md5,
                                    id,
                                ));
                                assert(news.take(olds.len() + i) =~= before);
                                assert(!has_uid(news.take(olds.len() + i), ps[i as int].uid));
                            }
                        }
                        assert(inserted_rows(olds, news, ps, i + 1 as int));
                    }
                },
                Err(e) => {
                    proof {
                        assert(inserted_rows(olds, self.rows(), ps, i as int));
                        assert(self.rows() == before);
                        assert(e == DbError::Constraint ==> has_uid(self.rows(), ps[i as int].uid));
                    }
                    return Err(e);
                },
            }
            i += 1;
        }
        Ok(())
    }

    /// Removes each record of the batch by its uid, in order. Removing a uid
    /// the catalog does not hold is a silent no-op, so the whole batch is a
    /// sequence of filters; on an engine failure the records before the
    /// failing one stay removed.
    pub fn remove_photos(&mut self, photos: &Vec<Photo>) -> (r: Result<(), DbError>)
        requires
            old(self).wf(),
        ensures
            final(self).wf(),
            r is Ok ==> final(self).rows() == removed_batch(
                old(self).rows(),
                views_of(photos@),
                photos@.len() as int,
            ),
            r is Err ==> (exists|k: int|
                0 <= k < photos@.len() && final(self).rows() == removed_batch(
                    old(self).rows(),
                    views_of(photos@),
                    k,
                )),
    {
        let ghost olds = old(self).rows();
        let ghost ps = views_of(photos@);
        let mut i: usize = 0;
        while i < photos.len()
            invariant
                i <= photos@.len(),
                self.wf(),
                olds == old(self).rows(),
                ps == views_of(photos@),
                self.rows() == removed_batch(olds, ps, i as int),
            decreases photos@.len() - i,
        {
            let p = &photos[i];
            let res = exec_delete(&mut self.conn, p.uid.as_str());
            match res {
                Ok(()) => {
                    proof {
                        assert(ps[i as int] == photos@[i as int]@);
                        assert(self.rows() == removed_batch(olds, ps, i + 1 as int));
                    }
                },
                Err(e) => { return Err(e); },
            }
            i += 1;
        }
        Ok(())
    }

    /// Moves each pair of the batch in order: the record whose uid is the
    /// first component's takes the filename and path of the second. Moving a
    /// uid the catalog does not hold is a silent no-op; on an engine failure
    /// the pairs before the failing one stay applied.
    pub fn move_photos(&mut self, photo_pairs: &Vec<(Photo, Photo)>) -> (r: Result<(), DbError>)
        requires
            old(self).wf(),
        ensures
            final(self).wf(),
            r is Ok ==> final(self).rows() == moved_batch(
                old(self).rows(),
                pair_views(photo_pairs@),
                photo_pairs@.len() as int,
            ),
            r is Err ==> (exists|k: int|
                0 <= k < photo_pairs@.len() && final(self).rows() == moved_batch(
                    old(self).rows(),
                    pair_views(photo_pairs@),
                    k,
                )),
    {
        let ghost olds = old(self).rows();
        let ghost ps = pair_views(photo_pairs@);
        let mut i: usize = 0;
        while i < photo_pairs.len()
            invariant
                i <= photo_pairs@.len(),
                self.wf(),
                olds == old(self).rows(),
                ps == pair_views(photo_pairs@),
                self.rows() == moved_batch(olds, ps, i as int),
            decreases photo_pairs@.len() - i,
        {
            let pair = &photo_pairs[i];
            let res = exec_move(
                &mut self.conn,
                pair.1.filename.as_str(),
                pair.1.path.as_str(),
                pair.0.uid.as_str(),
            );
            match res {
                Ok(()) => {
                    proof {
                        assert(ps[i as int] == (photo_pairs@[i as int].0@, photo_pairs@[
                            i as int].1@));
                        assert(self.rows() == moved_batch(olds, ps, i + 1 as int));
                    }
                },
                Err(e) => { return Err(e); },
            }
            i += 1;
        }
        Ok(())
    }
}

} // verus!
