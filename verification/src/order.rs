//! Caller-chosen orderings of a path listing: the fixed allow-list of sort
//! columns, the meaning of sorting by a list of columns, and the validation
//! that keeps unknown identifiers out of a statement.

use vstd::prelude::*;
use vstd::string::StringExecFns;
use crate::photo::PhotoView;

verus! {

/// Lexicographic order on strings by character code point, the order the
/// store applies to text columns.
pub open spec fn str_le(a: Seq<char>, b: Seq<char>) -> bool
    decreases a.len(),
{
    if a.len() == 0 {
        true
    } else if b.len() == 0 {
        false
    } else if a.first() != b.first() {
        (a.first() as int) < (b.first() as int)
    } else {
        str_le(a.drop_first(), b.drop_first())
    }
}

/// Whether `c` names a photo field that a caller may sort by.
pub open spec fn allowed_column(c: Seq<char>) -> bool {
    ||| c == "id"@
    ||| c == "filename"@
    ||| c == "path"@
    ||| c == "uid"@
    ||| c == "md5"@
    ||| c == "sort_order"@
    ||| c == "hidden"@
    ||| c == "metadata_parsed"@
    ||| c == "width"@
    ||| c == "height"@
    ||| c == "color"@
    ||| c == "title"@
    ||| c == "place"@
    ||| c == "date_taken"@
    ||| c == "camera_model"@
    ||| c == "lens_mode"@
    ||| c == "focal_length"@
    ||| c == "aperture"@
    ||| c == "exposure_time"@
    ||| c == "sensitivity"@
}

/// Strict order between two rows on one column.
pub open spec fn column_lt(c: Seq<char>, a: PhotoView, b: PhotoView) -> bool {
    if c == "id"@ {
        a.id < b.id
    } else if c == "filename"@ {
        str_le(a.filename, b.filename) && a.filename != b.filename
    } else if c == "path"@ {
        str_le(a.path, b.path) && a.path != b.path
    } else if c == "uid"@ {
        str_le(a.uid, b.uid) && a.uid != b.uid
    } else if c == "md5"@ {
        str_le(a.md5, b.md5) && a.md5 != b.md5
    } else if c == "sort_order"@ {
        a.sort_order < b.sort_order
    } else if c == "hidden"@ {
        !a.hidden && b.hidden
    } else if c == "metadata_parsed"@ {
        !a.metadata_parsed && b.metadata_parsed
    } else if c == "width"@ {
        a.width < b.width
    } else if c == "height"@ {
        a.height < b.height
    } else if c == "color"@ {
        str_le(a.color, b.color) && a.color != b.color
    } else if c == "title"@ {
        str_le(a.title, b.title) && a.title != b.title
    } else if c == "place"@ {
        str_le(a.place, b.place) && a.place != b.place
    } else if c == "date_taken"@ {
        str_le(a.date_taken, b.date_taken) && a.date_taken != b.date_taken
    } else if c == "camera_model"@ {
        str_le(a.camera_model, b.camera_model) && a.camera_model != b.camera_model
    } else if c == "lens_mode"@ {
        str_le(a.lens_mode, b.lens_mode) && a.lens_mode != b.lens_mode
    } else if c == "focal_length"@ {
        str_le(a.focal_length, b.focal_length) && a.focal_length != b.focal_length
    } else if c == "aperture"@ {
        str_le(a.aperture, b.aperture) && a.aperture != b.aperture
    } else if c == "exposure_time"@ {
        str_le(a.exposure_time, b.exposure_time) && a.exposure_time != b.exposure_time
    } else if c == "sensitivity"@ {
        a.sensitivity < b.sensitivity
    } else {
        false
    }
}

/// Equality of two rows on one column.
pub open spec fn column_eq(c: Seq<char>, a: PhotoView, b: PhotoView) -> bool {
    if c == "id"@ {
        a.id == b.id
    } else if c == "filename"@ {
        a.filename == b.filename
    } else if c == "path"@ {
        a.path == b.path
    } else if c == "uid"@ {
        a.uid == b.uid
    } else if c == "md5"@ {
        a.md5 == b.md5
    } else if c == "sort_order"@ {
        a.sort_order == b.sort_order
    } else if c == "hidden"@ {
        a.hidden == b.hidden
    } else if c == "metadata_parsed"@ {
        a.metadata_parsed == b.metadata_parsed
    } else if c == "width"@ {
        a.width == b.width
    } else if c == "height"@ {
        a.height == b.height
    } else if c == "color"@ {
        a.color == b.color
    } else if c == "title"@ {
        a.title == b.title
    } else if c == "place"@ {
        a.place == b.place
    } else if c == "date_taken"@ {
        a.date_taken == b.date_taken
    } else if c == "camera_model"@ {
        a.camera_model == b.camera_model
    } else if c == "lens_mode"@ {
        a.lens_mode == b.lens_mode
    } else if c == "focal_length"@ {
        a.focal_length == b.focal_length
    } else if c == "aperture"@ {
        a.aperture == b.aperture
    } else if c == "exposure_time"@ {
        a.exposure_time == b.exposure_time
    } else if c == "sensitivity"@ {
        a.sensitivity == b.sensitivity
    } else {
        true
    }
}

/// Row `a` comes no later than row `b` under the ordered column list `cols`,
/// each column ascending: the usual lexicographic composition.
pub open spec fn rows_le(cols: Seq<Seq<char>>, a: PhotoView, b: PhotoView) -> bool
    decreases cols.len(),
{
    if cols.len() == 0 {
        true
    } else if column_lt(cols.first(), a, b) {
        true
    } else if column_eq(cols.first(), a, b) {
        rows_le(cols.drop_first(), a, b)
    } else {
        false
    }
}

/// The listing is sorted under the column list: ascending, or — with
/// `reverse` — descending, the reversal applied to all columns uniformly.
pub open spec fn sorted_rows(rows: Seq<PhotoView>, cols: Seq<Seq<char>>, reverse: bool) -> bool {
    if reverse {
        forall|i: int, j: int|
            0 <= i < j < rows.len() ==> rows_le(cols, #[trigger] rows[j], #[trigger] rows[i])
    } else {
        forall|i: int, j: int|
            0 <= i < j < rows.len() ==> rows_le(cols, #[trigger] rows[i], #[trigger] rows[j])
    }
}

/// Every string precedes itself: the column orders admit ties.
pub proof fn lemma_str_le_refl(a: Seq<char>)
    ensures
        str_le(a, a),
    decreases a.len(),
{
    if a.len() != 0 {
        lemma_str_le_refl(a.drop_first());
    }
}

/// Sort order correctness for the common single-column listing: ordering by
/// the one column "filename" is exactly the lexicographic character order of
/// the filenames (ties allowed); with the direction reversed, exactly its
/// mirror image.
pub proof fn lemma_filename_order(a: PhotoView, b: PhotoView)
    ensures
        rows_le(seq!["filename"@], a, b) == str_le(a.filename, b.filename),
{
    reveal_strlit("id");
    reveal_strlit("filename");
    let cols = seq!["filename"@];
    assert(cols.first() == "filename"@);
    assert("filename"@ != "id"@);
    lemma_str_le_refl(a.filename);
    if column_eq(cols.first(), a, b) {
        assert(cols.drop_first().len() == 0);
        assert(rows_le(cols.drop_first(), a, b));
    }
}

/// The direction keyword appended to every column.
pub open spec fn dir_suffix(reverse: bool) -> Seq<char> {
    if reverse {
        " DESC"@
    } else {
        " ASC"@
    }
}

/// The text of the ORDER BY clause for the given columns and direction:
/// each column followed by its direction keyword, joined by commas.
pub open spec fn spec_order_clause(cols: Seq<Seq<char>>, reverse: bool) -> Seq<char>
    decreases cols.len(),
{
    if cols.len() == 0 {
        Seq::<char>::empty()
    } else if cols.len() == 1 {
        cols[0] + dir_suffix(reverse)
    } else {
        spec_order_clause(cols.drop_last(), reverse) + ", "@ + cols.last() + dir_suffix(reverse)
    }
}

/// Builds the ORDER BY clause from the column names and the direction —
/// from the count and content of the validated names alone, never from any
/// other caller content.
pub fn order_clause(sort_columns: &Vec<String>, reverse: bool) -> (s: String)
    ensures
        s@ == spec_order_clause(
            sort_columns@.map_values(|c: String| c@),
            reverse,
        ),
{
    broadcast use vstd::seq_lib::group_seq_properties;

    let ghost cs = sort_columns@.map_values(|c: String| c@);
    let mut s = String::new();
    let mut k: usize = 0;
    while k < sort_columns.len()
        invariant
            k <= sort_columns@.len(),
            cs == sort_columns@.map_values(|c: String| c@),
            s@ == spec_order_clause(cs.take(k as int), reverse),
        decreases sort_columns@.len() - k,
    {
        if k > 0 {
            s.append(", ");
        }
        s.append(sort_columns[k].as_str());
        if reverse {
            s.append(" DESC");
        } else {
            s.append(" ASC");
        }
        proof {
            assert(cs.take(k + 1 as int).drop_last() =~= cs.take(k as int));
            assert(cs.take(k + 1 as int).last() == cs[k as int]);
            if k == 0 {
                assert(s@ =~= cs[0] + dir_suffix(reverse));
            } else {
                assert(s@ =~= spec_order_clause(cs.take(k as int), reverse) + ", "@ + cs[k as int]
                    + dir_suffix(reverse));
            }
        }
        k += 1;
    }
    proof {
        assert(cs.take(sort_columns@.len() as int) =~= cs);
    }
    s
}

/// Whether `c` names a photo field of the fixed allow-list; exactly the
/// validation the path listing applies before interpolating an identifier.
pub fn is_allowed_column(c: &String) -> (b: bool)
    ensures
        b == allowed_column(c@),
{
    *c == "id".to_owned()
    || *c == "filename".to_owned()
    || *c == "path".to_owned()
    || *c == "uid".to_owned()
    || *c == "md5".to_owned()
    || *c == "sort_order".to_owned()
    || *c == "hidden".to_owned()
    || *c == "metadata_parsed".to_owned()
    || *c == "width".to_owned()
    || *c == "height".to_owned()
    || *c == "color".to_owned()
    || *c == "title".to_owned()
    || *c == "place".to_owned()
    || *c == "date_taken".to_owned()
    || *c == "camera_model".to_owned()
    || *c == "lens_mode".to_owned()
    || *c == "focal_length".to_owned()
    || *c == "aperture".to_owned()
    || *c == "exposure_time".to_owned()
    || *c == "sensitivity".to_owned()
}

} // verus!
