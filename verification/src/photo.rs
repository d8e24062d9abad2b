//! The photo entity: one record per known photo file, in the fixed column
//! order of the catalog schema, together with its mathematical view.

use vstd::prelude::*;

verus! {

/// Mathematical view of one catalog row, in schema column order.
pub struct PhotoView {
    pub id: int,
    pub filename: Seq<char>,
    pub path: Seq<char>,
    pub uid: Seq<char>,
    pub md5: Seq<char>,
    pub sort_order: int,
    pub hidden: bool,
    pub metadata_parsed: bool,
    pub width: int,
    pub height: int,
    pub color: Seq<char>,
    pub title: Seq<char>,
    pub place: Seq<char>,
    pub date_taken: Seq<char>,
    pub camera_model: Seq<char>,
    pub lens_mode: Seq<char>,
    pub focal_length: Seq<char>,
    pub aperture: Seq<char>,
    pub exposure_time: Seq<char>,
    pub sensitivity: int,
}

/// One photo record. `filename`, `path`, `uid` and `md5` are written by the
/// caller on insert; the remaining columns are storage-assigned (`id`) or
/// filled in later by a metadata-extraction collaborator, and decode to
/// type-appropriate defaults (zero, empty, false) until then.
#[derive(Debug, PartialEq, Eq)]
pub struct Photo {
    pub id: i64,
    pub filename: String,
    pub path: String,
    pub uid: String,
    pub md5: String,
    pub sort_order: i64,
    pub hidden: bool,
    pub metadata_parsed: bool,
    pub width: i64,
    pub height: i64,
    pub color: String,
    pub title: String,
    pub place: String,
    pub date_taken: String,
    pub camera_model: String,
    pub lens_mode: String,
    pub focal_length: String,
    pub aperture: String,
    pub exposure_time: String,
    pub sensitivity: i64,
}

impl View for Photo {
    type V = PhotoView;

    open spec fn view(&self) -> PhotoView {
        PhotoView {
            id: self.id as int,
            filename: self.filename@,
            path: self.path@,
            uid: self.uid@,
            md5: self.md5@,
            sort_order: self.sort_order as int,
            hidden: self.hidden,
            metadata_parsed: self.metadata_parsed,
            width: self.width as int,
            height: self.height as int,
            color: self.color@,
            title: self.title@,
            place: self.place@,
            date_taken: self.date_taken@,
            camera_model: self.camera_model@,
            lens_mode: self.lens_mode@,
            focal_length: self.focal_length@,
            aperture: self.aperture@,
            exposure_time: self.exposure_time@,
            sensitivity: self.sensitivity as int,
        }
    }
}

/// The view of a freshly inserted row: the four caller-written fields, a
/// storage-assigned id, and the documented defaults everywhere else.
pub open spec fn new_row(
    filename: Seq<char>,
    path: Seq<char>,
    uid: Seq<char>,
    md5: Seq<char>,
    id: int,
) -> PhotoView {
    PhotoView {
        id: id,
        filename: filename,
        path: path,
        uid: uid,
        md5: md5,
        sort_order: 0,
        hidden: false,
        metadata_parsed: false,
        width: 0,
        height: 0,
        color: Seq::<char>::empty(),
        title: Seq::<char>::empty(),
        place: Seq::<char>::empty(),
        date_taken: Seq::<char>::empty(),
        camera_model: Seq::<char>::empty(),
        lens_mode: Seq::<char>::empty(),
        focal_length: Seq::<char>::empty(),
        aperture: Seq::<char>::empty(),
        exposure_time: Seq::<char>::empty(),
        sensitivity: 0,
    }
}

impl Clone for Photo {
    /// A clone is equal to the record it was taken from, field for field.
    fn clone(&self) -> (r: Photo)
        ensures
            r == *self,
    {
        Photo {
            id: self.id,
            filename: self.filename.clone(),
            path: self.path.clone(),
            uid: self.uid.clone(),
            md5: self.md5.clone(),
            sort_order: self.sort_order,
            hidden: self.hidden,
            metadata_parsed: self.metadata_parsed,
            width: self.width,
            height: self.height,
            color: self.color.clone(),
            title: self.title.clone(),
            place: self.place.clone(),
            date_taken: self.date_taken.clone(),
            camera_model: self.camera_model.clone(),
            lens_mode: self.lens_mode.clone(),
            focal_length: self.focal_length.clone(),
            aperture: self.aperture.clone(),
            exposure_time: self.exposure_time.clone(),
            sensitivity: self.sensitivity,
        }
    }
}

impl Photo {
    /// The row mapper: one storage row, in the fixed column order of the
    /// catalog schema, becomes a photo record, field for field.
    pub fn from_columns(
        id: i64,
        filename: String,
        path: String,
        uid: String,
        md5: String,
        sort_order: i64,
        hidden: bool,
        metadata_parsed: bool,
        width: i64,
        height: i64,
        color: String,
        title: String,
        place: String,
        date_taken: String,
        camera_model: String,
        lens_mode: String,
        focal_length: String,
        aperture: String,
        exposure_time: String,
        sensitivity: i64,
    ) -> (p: Photo)
        ensures
            p == (Photo {
                id,
                filename,
                path,
                uid,
                md5,
                sort_order,
                hidden,
                metadata_parsed,
                width,
                height,
                color,
                title,
                place,
                date_taken,
                camera_model,
                lens_mode,
                focal_length,
                aperture,
                exposure_time,
                sensitivity,
            }),
    {
        Photo {
            id,
            filename,
            path,
            uid,
            md5,
            sort_order,
            hidden,
            metadata_parsed,
            width,
            height,
            color,
            title,
            place,
            date_taken,
            camera_model,
            lens_mode,
            focal_length,
            aperture,
            exposure_time,
            sensitivity,
        }
    }

    /// A record as the caller hands it to `insert_photos`: the four
    /// caller-written fields set, everything else at its default.
    pub fn new(filename: String, path: String, uid: String, md5: String) -> (p: Photo)
        ensures
            p@ == new_row(filename@, path@, uid@, md5@, 0),
    {
        let p = Photo {
            id: 0,
            filename: filename,
            path: path,
            uid: uid,
            md5: md5,
            sort_order: 0,
            hidden: false,
            metadata_parsed: false,
            width: 0,
            height: 0,
            color: String::new(),
            title: String::new(),
            place: String::new(),
            date_taken: String::new(),
            camera_model: String::new(),
            lens_mode: String::new(),
            focal_length: String::new(),
            aperture: String::new(),
            exposure_time: String::new(),
            sensitivity: 0,
        };
        assert(p@ =~= new_row(p.filename@, p.path@, p.uid@, p.md5@, 0));
        p
    }
}

} // verus!
