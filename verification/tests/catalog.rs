use photo_catalog::catalog::Catalog;
use photo_catalog::error::DbError;
use photo_catalog::photo::Photo;

fn fresh_catalog() -> Catalog {
    Catalog::open_or_initialize(":memory:").expect("bootstrap failed")
}

fn photo(filename: &str, path: &str, uid: &str, md5: &str) -> Photo {
    Photo::new(
        filename.to_string(),
        path.to_string(),
        uid.to_string(),
        md5.to_string(),
    )
}

fn sorted(mut v: Vec<String>) -> Vec<String> {
    v.sort();
    v
}

#[test]
fn bootstrap_creates_empty_catalog() {
    let cat = fresh_catalog();
    assert_eq!(cat.get_existing_uids().unwrap(), Vec::<String>::new());
}

#[test]
fn bootstrap_idempotent() {
    let mut cat = fresh_catalog();
    cat.insert_photos(&vec![photo("a.jpg", "/p", "u1", "m1")]).unwrap();
    // Running the schema step again on the same store must not fail and must
    // leave the catalog exactly as it was.
    cat.ensure_schema().unwrap();
    cat.ensure_schema().unwrap();
    assert_eq!(cat.get_existing_uids().unwrap(), vec!["u1".to_string()]);
}

#[test]
fn duplicate_uid_rejected() {
    let mut cat = fresh_catalog();
    cat.insert_photos(&vec![photo("a.jpg", "/p", "u1", "m1")]).unwrap();
    let err = cat
        .insert_photos(&vec![photo("b.jpg", "/q", "u1", "m2")])
        .unwrap_err();
    assert!(matches!(err, DbError::Constraint));
    // The first record is unchanged.
    let got = cat.get_photos_in_path(&"/p".to_string(), &vec![], false).unwrap();
    assert_eq!(got.len(), 1);
    assert_eq!(got[0].filename, "a.jpg");
    assert_eq!(got[0].md5, "m1");
    assert_eq!(cat.get_existing_uids().unwrap(), vec!["u1".to_string()]);
}

#[test]
fn duplicate_uid_within_batch_keeps_prefix() {
    let mut cat = fresh_catalog();
    let err = cat
        .insert_photos(&vec![
            photo("a.jpg", "/p", "u1", "m1"),
            photo("b.jpg", "/p", "u2", "m2"),
            photo("c.jpg", "/p", "u1", "m3"),
        ])
        .unwrap_err();
    assert!(matches!(err, DbError::Constraint));
    // The records before the failing one stay committed.
    assert_eq!(
        sorted(cat.get_existing_uids().unwrap()),
        vec!["u1".to_string(), "u2".to_string()]
    );
}

#[test]
fn insert_round_trip() {
    let mut cat = fresh_catalog();
    cat.insert_photos(&vec![photo("a.jpg", "/pics/2021", "uid-a", "md5-a")]).unwrap();
    let got = cat
        .get_photos_in_path(&"/pics/2021".to_string(), &vec![], false)
        .unwrap();
    assert_eq!(got.len(), 1);
    let p = &got[0];
    assert_eq!(p.filename, "a.jpg");
    assert_eq!(p.path, "/pics/2021");
    assert_eq!(p.uid, "uid-a");
    assert_eq!(p.md5, "md5-a");
    // Storage-only fields take the documented defaults.
    assert_eq!(p.sort_order, 0);
    assert_eq!(p.hidden, false);
    assert_eq!(p.metadata_parsed, false);
    assert_eq!(p.width, 0);
    assert_eq!(p.height, 0);
    assert_eq!(p.color, "");
    assert_eq!(p.title, "");
    assert_eq!(p.place, "");
    assert_eq!(p.date_taken, "");
    assert_eq!(p.camera_model, "");
    assert_eq!(p.lens_mode, "");
    assert_eq!(p.focal_length, "");
    assert_eq!(p.aperture, "");
    assert_eq!(p.exposure_time, "");
    assert_eq!(p.sensitivity, 0);
}

#[test]
fn prefix_search_boundaries() {
    let mut cat = fresh_catalog();
    cat.insert_photos(&vec![
        photo("1.jpg", "/a/b", "u1", "m1"),
        photo("2.jpg", "/a/bc", "u2", "m2"),
        photo("3.jpg", "/a/b/c", "u3", "m3"),
    ])
    .unwrap();
    // Character-exact prefix match, not path-segment-aware: "/a/bc" begins
    // with the four characters "/a/b" and so is included.
    let got = sorted(cat.get_paths_starting_with(&"/a/b".to_string()).unwrap());
    assert_eq!(
        got,
        vec!["/a/b".to_string(), "/a/b/c".to_string(), "/a/bc".to_string()]
    );
    // One character more excludes "/a/bc" and "/a/b" itself.
    let got = cat.get_paths_starting_with(&"/a/b/".to_string()).unwrap();
    assert_eq!(got, vec!["/a/b/c".to_string()]);
    // A prefix matching nothing returns the empty set.
    let got = cat.get_paths_starting_with(&"/a/x".to_string()).unwrap();
    assert_eq!(got, Vec::<String>::new());
}

#[test]
fn prefix_search_collapses_duplicates() {
    let mut cat = fresh_catalog();
    cat.insert_photos(&vec![
        photo("1.jpg", "/a", "u1", "m1"),
        photo("2.jpg", "/a", "u2", "m2"),
    ])
    .unwrap();
    assert_eq!(
        cat.get_paths_starting_with(&"/".to_string()).unwrap(),
        vec!["/a".to_string()]
    );
}

#[test]
fn empty_path_list_is_safe() {
    let cat = fresh_catalog();
    let got = cat.get_photos_in_paths(&vec![]).unwrap();
    assert_eq!(got.len(), 0);
}

#[test]
fn photos_in_paths_exact_match() {
    let mut cat = fresh_catalog();
    cat.insert_photos(&vec![
        photo("1.jpg", "/a", "u1", "m1"),
        photo("2.jpg", "/b", "u2", "m2"),
        photo("3.jpg", "/c", "u3", "m3"),
        photo("4.jpg", "/a", "u4", "m4"),
    ])
    .unwrap();
    let got = cat
        .get_photos_in_paths(&vec!["/a".to_string(), "/c".to_string()])
        .unwrap();
    let mut uids: Vec<String> = got.iter().map(|p| p.uid.clone()).collect();
    uids.sort();
    assert_eq!(uids, vec!["u1".to_string(), "u3".to_string(), "u4".to_string()]);
}

#[test]
fn remove_missing_uid_is_noop() {
    let mut cat = fresh_catalog();
    cat.insert_photos(&vec![photo("a.jpg", "/p", "u1", "m1")]).unwrap();
    cat.remove_photos(&vec![photo("x.jpg", "/q", "unknown", "m")]).unwrap();
    assert_eq!(cat.get_existing_uids().unwrap(), vec!["u1".to_string()]);
}

#[test]
fn move_missing_uid_is_noop() {
    let mut cat = fresh_catalog();
    cat.insert_photos(&vec![photo("a.jpg", "/p", "u1", "m1")]).unwrap();
    cat.move_photos(&vec![(
        photo("x.jpg", "/q", "unknown", "m"),
        photo("y.jpg", "/r", "unknown", "m"),
    )])
    .unwrap();
    let got = cat.get_photos_in_path(&"/p".to_string(), &vec![], false).unwrap();
    assert_eq!(got.len(), 1);
    assert_eq!(got[0].filename, "a.jpg");
}

#[test]
fn remove_photos_deletes_by_uid() {
    let mut cat = fresh_catalog();
    cat.insert_photos(&vec![
        photo("a.jpg", "/p", "u1", "m1"),
        photo("b.jpg", "/p", "u2", "m2"),
    ])
    .unwrap();
    cat.remove_photos(&vec![photo("a.jpg", "/p", "u1", "m1")]).unwrap();
    assert_eq!(cat.get_existing_uids().unwrap(), vec!["u2".to_string()]);
}

#[test]
fn move_photos_updates_filename_and_path() {
    let mut cat = fresh_catalog();
    cat.insert_photos(&vec![photo("a.jpg", "/old", "u1", "m1")]).unwrap();
    cat.move_photos(&vec![(
        photo("a.jpg", "/old", "u1", "m1"),
        photo("b.jpg", "/new", "u1", "m1"),
    )])
    .unwrap();
    let old_path = cat.get_photos_in_path(&"/old".to_string(), &vec![], false).unwrap();
    assert_eq!(old_path.len(), 0);
    let new_path = cat.get_photos_in_path(&"/new".to_string(), &vec![], false).unwrap();
    assert_eq!(new_path.len(), 1);
    assert_eq!(new_path[0].filename, "b.jpg");
    assert_eq!(new_path[0].uid, "u1");
    assert_eq!(new_path[0].md5, "m1");
}

#[test]
fn sort_by_filename_ascending_and_descending() {
    let mut cat = fresh_catalog();
    cat.insert_photos(&vec![
        photo("b.jpg", "/p", "u1", "m1"),
        photo("a.jpg", "/p", "u2", "m2"),
        photo("c.jpg", "/p", "u3", "m3"),
    ])
    .unwrap();
    let asc = cat
        .get_photos_in_path(&"/p".to_string(), &vec!["filename".to_string()], false)
        .unwrap();
    let names: Vec<&str> = asc.iter().map(|p| p.filename.as_str()).collect();
    assert_eq!(names, vec!["a.jpg", "b.jpg", "c.jpg"]);
    let desc = cat
        .get_photos_in_path(&"/p".to_string(), &vec!["filename".to_string()], true)
        .unwrap();
    let names: Vec<&str> = desc.iter().map(|p| p.filename.as_str()).collect();
    assert_eq!(names, vec!["c.jpg", "b.jpg", "a.jpg"]);
}

#[test]
fn sort_by_two_columns() {
    let mut cat = fresh_catalog();
    cat.insert_photos(&vec![
        photo("b.jpg", "/p", "u1", "m2"),
        photo("a.jpg", "/p", "u2", "m2"),
        photo("c.jpg", "/p", "u3", "m1"),
    ])
    .unwrap();
    let got = cat
        .get_photos_in_path(
            &"/p".to_string(),
            &vec!["md5".to_string(), "filename".to_string()],
            false,
        )
        .unwrap();
    let names: Vec<&str> = got.iter().map(|p| p.filename.as_str()).collect();
    assert_eq!(names, vec!["c.jpg", "a.jpg", "b.jpg"]);
}

#[test]
fn unknown_sort_column_refused() {
    let mut cat = fresh_catalog();
    cat.insert_photos(&vec![photo("a.jpg", "/p", "u1", "m1")]).unwrap();
    let err = cat
        .get_photos_in_path(
            &"/p".to_string(),
            &vec!["filename; DROP TABLE photo".to_string()],
            false,
        )
        .unwrap_err();
    assert!(matches!(err, DbError::InvalidSortColumn));
    // The catalog is intact afterwards.
    assert_eq!(cat.get_existing_uids().unwrap(), vec!["u1".to_string()]);
}

#[test]
fn many_distinct_inserts_all_listed() {
    let mut cat = fresh_catalog();
    let mut batch: Vec<Photo> = Vec::new();
    for i in 0..20 {
        batch.push(photo(
            &format!("f{i}.jpg"),
            "/p",
            &format!("uid-{i}"),
            &format!("md5-{i}"),
        ));
    }
    cat.insert_photos(&batch).unwrap();
    let mut uids = cat.get_existing_uids().unwrap();
    assert_eq!(uids.len(), 20);
    uids.sort();
    uids.dedup();
    assert_eq!(uids.len(), 20, "no uid may be missing or duplicated");
}

#[test]
fn uids_listed_after_separate_inserts() {
    let mut cat = fresh_catalog();
    for i in 0..5 {
        cat.insert_photos(&vec![photo(
            &format!("f{i}.jpg"),
            "/p",
            &format!("uid-{i}"),
            "m",
        )])
        .unwrap();
    }
    assert_eq!(
        sorted(cat.get_existing_uids().unwrap()),
        (0..5).map(|i| format!("uid-{i}")).collect::<Vec<_>>()
    );
}

#[test]
fn from_columns_builds_record_in_schema_order() {
    let p = Photo::from_columns(
        7,
        "f.jpg".to_string(),
        "/p".to_string(),
        "u".to_string(),
        "m".to_string(),
        3,
        true,
        true,
        640,
        480,
        "red".to_string(),
        "title".to_string(),
        "place".to_string(),
        "2021-01-01".to_string(),
        "cam".to_string(),
        "lens".to_string(),
        "50mm".to_string(),
        "f/2".to_string(),
        "1/100".to_string(),
        200,
    );
    assert_eq!(p.id, 7);
    assert_eq!(p.filename, "f.jpg");
    assert_eq!(p.path, "/p");
    assert_eq!(p.uid, "u");
    assert_eq!(p.md5, "m");
    assert_eq!(p.sort_order, 3);
    assert_eq!(p.hidden, true);
    assert_eq!(p.metadata_parsed, true);
    assert_eq!(p.width, 640);
    assert_eq!(p.height, 480);
    assert_eq!(p.color, "red");
    assert_eq!(p.title, "title");
    assert_eq!(p.place, "place");
    assert_eq!(p.date_taken, "2021-01-01");
    assert_eq!(p.camera_model, "cam");
    assert_eq!(p.lens_mode, "lens");
    assert_eq!(p.focal_length, "50mm");
    assert_eq!(p.aperture, "f/2");
    assert_eq!(p.exposure_time, "1/100");
    assert_eq!(p.sensitivity, 200);
}

#[test]
fn reopen_of_bootstrapped_store_succeeds() {
    // A shared-cache in-memory store lives as long as one connection holds
    // it, so a second bootstrap sees the table the first one created.
    let uri = "file:reopen_test?mode=memory&cache=shared";
    let mut first = Catalog::open_or_initialize(uri).unwrap();
    first.insert_photos(&vec![photo("a.jpg", "/p", "u1", "m1")]).unwrap();
    let second = Catalog::open_or_initialize(uri).unwrap();
    assert_eq!(second.get_existing_uids().unwrap(), vec!["u1".to_string()]);
}

#[test]
fn foreign_photo_table_is_refused() {
    // An outside writer created a table named photo of another shape; the
    // bootstrap must refuse the store rather than proceed on it.
    let uri = "file:mismatch_test?mode=memory&cache=shared";
    let keeper = rusqlite::Connection::open(uri).unwrap();
    keeper
        .execute_batch("CREATE TABLE photo (id INTEGER PRIMARY KEY, filename TEXT);")
        .unwrap();
    match Catalog::open_or_initialize(uri) {
        Ok(_) => panic!("a foreign photo table must not bootstrap"),
        Err(err) => assert!(matches!(err, DbError::SchemaMismatch)),
    }
    drop(keeper);
}
