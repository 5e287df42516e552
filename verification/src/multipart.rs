//! Uploaded images: accepted file extensions and the names uploads are
//! stored under.

use vstd::prelude::*;
use crate::responses::{api_error, in_chrono_range, internal_error_res, is_error, utc_now, ApiError, ClockReading, BAD_REQUEST, INTERNAL_SERVER_ERROR};
use crate::text::{chars_of, string_from_chars};

verus! {

/// A file field of a multipart form: the file name the client sent, if
/// any, and the file's bytes.
#[derive(Clone, Debug)]
pub struct UploadedFile {
    pub file_name: Option<String>,
    pub contents: Vec<u8>,
}

/// Position of the last `c` in `s`.
pub open spec fn last_index_of(s: Seq<char>, c: char) -> Option<int>
    decreases s.len(),
{
    if s.len() == 0 {
        None
    } else if s.last() == c {
        Some(s.len() - 1)
    } else {
        last_index_of(s.drop_last(), c)
    }
}

/// Text after the last `.` of a file name, if it has one.
pub open spec fn extension_of(name: Seq<char>) -> Option<Seq<char>> {
    match last_index_of(name, '.') {
        Some(i) => Some(name.subrange(i + 1, name.len() as int)),
        None => None,
    }
}

/// Image file extensions accepted for uploads.
pub open spec fn allowed_image_extensions() -> Seq<Seq<char>> {
    seq!["jpe"@, "jpg"@, "jpeg"@, "png"@, "webp"@]
}

/// The extension of an uploaded image, or the response refusing it.
pub open spec fn image_extension_spec(file_name: Option<Seq<char>>) -> Result<Seq<char>, (u16, Seq<char>)> {
    match file_name {
        None => Err((BAD_REQUEST, "empty filename"@)),
        Some(name) => match extension_of(name) {
            None => Err((BAD_REQUEST, "empty file extension"@)),
            Some(ext) => if allowed_image_extensions().contains(ext) {
                Ok(ext)
            } else {
                Err((BAD_REQUEST, "invalid file extension"@))
            },
        },
    }
}

pub open spec fn opt_view(s: &Option<String>) -> Option<Seq<char>> {
    match s {
        Some(v) => Some(v@),
        None => None,
    }
}

/// Whether `r` is the outcome `expected` describes.
pub open spec fn matches_outcome(r: Result<String, ApiError>, expected: Result<Seq<char>, (u16, Seq<char>)>) -> bool {
    match (r, expected) {
        (Ok(s), Ok(t)) => s@ == t,
        (Err(e), Err((status, msg))) => is_error(e, status, msg),
        _ => false,
    }
}

fn find_last(s: &Vec<char>, c: char) -> (r: Option<usize>)
    ensures
        match r {
            Some(i) => last_index_of(s@, c) == Some(i as int),
            None => last_index_of(s@, c) is None,
        },
        r matches Some(i) ==> i < s@.len(),
{
    let mut i = s.len();
    assert(s@.subrange(0, i as int) =~= s@);
    while i > 0
        invariant
            i <= s@.len(),
            last_index_of(s@, c) == last_index_of(s@.subrange(0, i as int), c),
        decreases i,
    {
        let ghost pre = s@.subrange(0, i as int);
        if s[i - 1] == c {
            assert(pre.last() == c);
            return Some(i - 1);
        }
        assert(pre.drop_last() =~= s@.subrange(0, i - 1));
        i = i - 1;
    }
    None
}

fn extension_allowed(ext: &String) -> (b: bool)
    ensures
        b == allowed_image_extensions().contains(ext@),
{
    let a = "jpe".to_string();
    let b = "jpg".to_string();
    let c = "jpeg".to_string();
    let d = "png".to_string();
    let e = "webp".to_string();
    let r = *ext == a || *ext == b || *ext == c || *ext == d || *ext == e;
    proof {
        let l = allowed_image_extensions();
        if r {
            if ext@ == a@ { assert(l[0] == ext@); }
            else if ext@ == b@ { assert(l[1] == ext@); }
            else if ext@ == c@ { assert(l[2] == ext@); }
            else if ext@ == d@ { assert(l[3] == ext@); }
            else { assert(l[4] == ext@); }
        } else {
            assert forall|i: int| 0 <= i < l.len() implies l[i] != ext@ by {}
        }
    }
    r
}

/// Checks that an uploaded file is an image with an accepted extension and
/// returns the extension.
pub fn get_image_extension_from_field_or_fail_request(field: &UploadedFile) -> (r: Result<String, ApiError>)
    ensures
        matches_outcome(r, image_extension_spec(opt_view(&field.file_name))),
{
    let name = match &field.file_name {
        None => { return Err(api_error(BAD_REQUEST, "empty filename")); },
        Some(n) => n,
    };
    let chars = chars_of(name.as_str());
    let found = find_last(&chars, '.');
    let dot = match found {
        None => { return Err(api_error(BAD_REQUEST, "empty file extension")); },
        Some(i) => i,
    };
    let n = chars.len();
    assert(dot < n);
    let mut ext_chars: Vec<char> = Vec::new();
    let mut k = dot + 1;
    while k < chars.len()
        invariant
            dot < chars@.len(),
            dot + 1 <= k <= chars@.len(),
            ext_chars@ == chars@.subrange(dot + 1, k as int),
        decreases chars.len() - k,
    {
        ext_chars.push(chars[k]);
        k = k + 1;
        assert(ext_chars@ =~= chars@.subrange(dot + 1, k as int));
    }
    let ext = string_from_chars(&ext_chars);
    if extension_allowed(&ext) {
        Ok(ext)
    } else {
        Err(api_error(BAD_REQUEST, "invalid file extension"))
    }
}

/// The name of an uploaded image: `{prefix}_{timestamp}.{extension}`.
pub open spec fn image_filename_spec(prefix: Seq<char>, timestamp: Seq<char>, extension: Seq<char>) -> Seq<char> {
    prefix + "_"@ + timestamp + "."@ + extension
}

pub fn image_filename(prefix: &str, timestamp: &str, extension: &str) -> (f: String)
    ensures
        f@ == image_filename_spec(prefix@, timestamp@, extension@),
{
    let mut f = prefix.to_string();
    f.append("_");
    f.append(timestamp);
    f.append(".");
    f.append(extension);
    f
}

proof fn lemma_last_index_after(s: Seq<char>, t: Seq<char>, c: char)
    requires
        forall|i: int| 0 <= i < t.len() ==> t[i] != c,
    ensures
        last_index_of(s + seq![c] + t, c) == Some(s.len() as int),
    decreases t.len(),
{
    let u = s + seq![c] + t;
    if t.len() == 0 {
        assert(u.last() == c);
    } else {
        assert(u.drop_last() =~= s + seq![c] + t.drop_last());
        assert(u.last() == t.last());
        lemma_last_index_after(s, t.drop_last(), c);
    }
}

/// A stored image keeps its extension: the extension of the name an upload
/// is stored under is the extension it was accepted with.
pub proof fn lemma_image_filename_extension(prefix: Seq<char>, timestamp: Seq<char>, extension: Seq<char>)
    requires
        forall|i: int| 0 <= i < extension.len() ==> extension[i] != '.',
    ensures
        extension_of(image_filename_spec(prefix, timestamp, extension)) == Some(extension),
{
    reveal_strlit("_");
    reveal_strlit(".");
    let head = prefix + "_"@ + timestamp;
    let name = image_filename_spec(prefix, timestamp, extension);
    assert(name =~= head + seq!['.'] + extension);
    lemma_last_index_after(head, extension, '.');
    assert(name.subrange(head.len() as int + 1, name.len() as int) =~= extension);
}

/// An accepted extension has no dot in it.
pub proof fn lemma_extension_has_no_dot(name: Seq<char>)
    requires
        extension_of(name) is Some,
    ensures
        forall|i: int| 0 <= i < extension_of(name).unwrap().len() ==> extension_of(name).unwrap()[i] != '.',
    decreases name.len(),
{
    if name.len() > 0 && name.last() != '.' {
        let pre = name.drop_last();
        if extension_of(pre) is Some {
            lemma_extension_has_no_dot(pre);
            lemma_last_index_bound(pre, '.');
            assert(extension_of(name).unwrap() =~= extension_of(pre).unwrap().push(name.last()));
        }
    }
}

proof fn lemma_last_index_bound(s: Seq<char>, c: char)
    ensures
        last_index_of(s, c) matches Some(i) ==> 0 <= i < s.len() && s[i] == c,
    decreases s.len(),
{
    if s.len() > 0 && s.last() != c {
        lemma_last_index_bound(s.drop_last(), c);
    }
}

/// The UTC time `secs` seconds after the epoch, written
/// `day-month-year_hours:minutes:seconds` by chrono.
pub uninterp spec fn filename_timestamp(secs: i64) -> Option<Seq<char>>;

/// Writes a UNIX time with `chrono`'s `%d-%m-%Y_%H:%M:%S` format; `None`
/// exactly for a time outside chrono's range (`DateTime::from_timestamp`).
/// The text is a function of the time; it is named, not restated.
#[verifier::external_body]
fn format_filename_timestamp(secs: i64) -> (r: Option<String>)
    ensures
        r is Some <==> in_chrono_range(secs as int),
        match r {
            Some(s) => filename_timestamp(secs) == Some(s@),
            None => filename_timestamp(secs) is None,
        },
{
    match chrono::DateTime::from_timestamp(secs, 0) {
        Some(t) => Some(t.format("%d-%m-%Y_%H:%M:%S").to_string()),
        None => None,
    }
}

/// Whether `name` is a name an upload of `file_name` gets under `prefix`:
/// its accepted extension after the prefix and a clock reading.
pub open spec fn is_upload_name(prefix: Seq<char>, file_name: Option<Seq<char>>, name: Seq<char>) -> bool {
    image_extension_spec(file_name) matches Ok(ext) && exists|secs: i64|
        #[trigger] filename_timestamp(secs) matches Some(stamp) && name == image_filename_spec(prefix, stamp, ext)
}

/// An upload is stored under a name with the extension of the file the
/// client sent.
pub proof fn lemma_upload_name_keeps_extension(prefix: Seq<char>, file_name: Option<Seq<char>>, name: Seq<char>)
    requires
        is_upload_name(prefix, file_name, name),
    ensures
        file_name is Some,
        extension_of(name) == extension_of(file_name.unwrap()),
{
    let sent = file_name.unwrap();
    let ext = extension_of(sent).unwrap();
    let secs = choose|secs: i64|
        #[trigger] filename_timestamp(secs) matches Some(stamp) && name == image_filename_spec(prefix, stamp, ext);
    let stamp = filename_timestamp(secs).unwrap();
    lemma_extension_has_no_dot(sent);
    lemma_image_filename_extension(prefix, stamp, ext);
}

/// The outcome of naming an upload of `file_name` under `prefix` at the
/// clock reading `secs`: the refusal of the upload check, or
/// `{prefix}_{timestamp}.{extension}`.
pub open spec fn upload_filename_spec(
    prefix: Seq<char>,
    file_name: Option<Seq<char>>,
    secs: i64,
) -> Result<Seq<char>, (u16, Seq<char>)> {
    match image_extension_spec(file_name) {
        Err(e) => Err(e),
        Ok(ext) => match filename_timestamp(secs) {
            Some(stamp) => Ok(image_filename_spec(prefix, stamp, ext)),
            None => Err((INTERNAL_SERVER_ERROR, "internal server error"@)),
        },
    }
}

/// An accepted image named at a time chrono can write is named
/// `{prefix}_{timestamp}.{extension}`, the timestamp being that time.
pub proof fn lemma_upload_name_at(prefix: Seq<char>, name: Seq<char>, secs: i64, ext: Seq<char>, stamp: Seq<char>)
    requires
        image_extension_spec(Some(name)) == Ok::<Seq<char>, (u16, Seq<char>)>(ext),
        filename_timestamp(secs) == Some(stamp),
    ensures
        upload_filename_spec(prefix, Some(name), secs) == Ok::<Seq<char>, (u16, Seq<char>)>(
            prefix + seq!['_'] + stamp + seq!['.'] + ext,
        ),
{
    reveal_strlit("_");
    reveal_strlit(".");
    assert(image_filename_spec(prefix, stamp, ext) =~= prefix + seq!['_'] + stamp + seq!['.'] + ext);
}

/// Validates an uploaded image and names it after `prefix`, the time
/// `secs` seconds after the epoch and its extension.
pub fn upload_filename_at(prefix: &str, img: &UploadedFile, secs: i64) -> (r: Result<String, ApiError>)
    ensures
        matches_outcome(r, upload_filename_spec(prefix@, opt_view(&img.file_name), secs)),
        image_extension_spec(opt_view(&img.file_name)) is Ok && in_chrono_range(secs as int) ==> r is Ok,
{
    let ext = get_image_extension_from_field_or_fail_request(img)?;
    match format_filename_timestamp(secs) {
        Some(stamp) => {
            let f = image_filename(prefix, stamp.as_str(), ext.as_str());
            Ok(f)
        },
        None => Err(internal_error_res()),
    }
}

/// Whether `r` is the outcome of naming an upload of `file_name` under
/// `prefix` at the clock reading `reading`.
pub open spec fn named_at_reading(
    r: Result<String, ApiError>,
    prefix: Seq<char>,
    file_name: Option<Seq<char>>,
    reading: ClockReading,
) -> bool {
    matches_outcome(r, upload_filename_spec(prefix, file_name, reading.spec_time().secs))
}

/// Validates an uploaded image and names it after `prefix`, the current
/// time (the clock reading the call takes) and its extension. An accepted
/// image always gets a name.
pub fn filename_from_img(prefix: &str, img: &UploadedFile) -> (r: Result<String, ApiError>)
    ensures
        exists|secs: i64|
            in_chrono_range(secs as int) && #[trigger] matches_outcome(
                r,
                upload_filename_spec(prefix@, opt_view(&img.file_name), secs),
            ),
        image_extension_spec(opt_view(&img.file_name)) matches Err((status, msg)) ==> (r matches Err(e)
            && is_error(e, status, msg)),
        image_extension_spec(opt_view(&img.file_name)) is Ok ==> r is Ok,
        r matches Ok(f) ==> is_upload_name(prefix@, opt_view(&img.file_name), f@),
        exists|reading: ClockReading| #[trigger] named_at_reading(r, prefix@, opt_view(&img.file_name), reading),
{
    let reading = utc_now();
    let secs = reading.time().secs;
    let r = upload_filename_at(prefix, img, secs);
    proof {
        if r is Ok {
            let ext = image_extension_spec(opt_view(&img.file_name))->Ok_0;
            assert(filename_timestamp(secs) matches Some(stamp) && r->Ok_0@ == image_filename_spec(prefix@, stamp, ext));
        }
        assert(matches_outcome(r, upload_filename_spec(prefix@, opt_view(&img.file_name), secs)));
        assert(named_at_reading(r, prefix@, opt_view(&img.file_name), reading));
    }
    r
}

} // verus!
