//! The decisions of an upload: which form field is which, what the stored
//! file is called, and whether the form is complete.

use vstd::prelude::*;
use vstd::string::StringExecFns;
use crate::codec::{align, aligned_prefix};
use crate::ids::{parsed_id, ObjectId};
use crate::records::{models_prefix, photos_prefix, videos_prefix, Model, Photo, Video};
use crate::status::Status;
use crate::text::{ends_with, is_blank, is_suffix, join2, same_text};

verus! {

/// The part that a form field plays in an upload.
#[derive(Clone, Copy, Debug, PartialEq, Eq, Structural)]
pub enum FieldKind {
    /// The file itself.
    File,
    /// The display name of the asset.
    Name,
    /// The identifier of the asset's category.
    Category,
    /// Any other field, which is passed over.
    Other,
}

/// The part that a field of the given name plays.
pub open spec fn field_kind(name: Seq<char>) -> FieldKind {
    if name == "file"@ {
        FieldKind::File
    } else if name == "name"@ {
        FieldKind::Name
    } else if name == "category"@ {
        FieldKind::Category
    } else {
        FieldKind::Other
    }
}

/// Tells the fields of an upload form apart by their names.
pub fn classify_field(name: &str) -> (kind: FieldKind)
    ensures
        kind == field_kind(name@),
{
    if same_text(name, "file") {
        FieldKind::File
    } else if same_text(name, "name") {
        FieldKind::Name
    } else if same_text(name, "category") {
        FieldKind::Category
    } else {
        FieldKind::Other
    }
}

/// Whether a character is a digit or one of the letters `a` to `f`.
pub open spec fn is_lower_hex(c: char) -> bool {
    ('0' <= c <= '9') || ('a' <= c <= 'f')
}

/// The shape of a UUID in text: thirty-six characters, hyphens after the
/// eighth, twelfth, sixteenth and twentieth digit, lower-case hexadecimal
/// digits elsewhere.
pub open spec fn is_uuid_text(s: Seq<char>) -> bool {
    &&& s.len() == 36
    &&& forall|i: int|
        0 <= i < 36 ==> if i == 8 || i == 13 || i == 18 || i == 23 {
            #[trigger] s[i] == '-'
        } else {
            is_lower_hex(s[i])
        }
}

/// Draws a random UUID with `Uuid::new_v4` of the uuid crate and writes it
/// as the crate's `Display` does: hyphenated, in lower case. Which UUID
/// comes out is a matter of chance.
#[verifier::external_body]
fn random_uuid_text() -> (r: String)
    ensures
        is_uuid_text(r@),
{
    uuid::Uuid::new_v4().to_string()
}

/// The pattern that file names carry the day of the upload in: year, month
/// and day, without separators.
pub open spec fn date_pattern() -> Seq<char> {
    "%Y%m%d"@
}

/// Writes today's date in local time with `Local::now` and `format` of
/// chrono. The text depends on the clock and the time zone, so nothing is
/// stated of it. The pattern is fixed to one that chrono can always write.
#[verifier::external_body]
fn local_date_text(pattern: &str) -> (r: String)
    requires
        pattern@ == date_pattern(),
{
    chrono::Local::now().format(pattern).to_string()
}

/// Takes the extension of a file name with `Path::extension` of the
/// standard library: the part after the last dot of the last path
/// component, if there is one. What counts as a component differs between
/// platforms; on each of them the extension itself holds no dot.
#[verifier::external_body]
fn path_extension(file_name: &str) -> (r: Option<String>)
    ensures
        r is Some ==> !r->0@.contains('.'),
{
    match std::path::Path::new(file_name).extension() {
        Some(e) => match e.to_str() {
            Some(t) => Some(t.to_string()),
            None => None,
        },
        None => None,
    }
}

/// The name under which an uploaded model is stored.
pub open spec fn model_file_name(uuid: Seq<char>, date: Seq<char>) -> Seq<char> {
    "model_"@ + uuid + "_"@ + date + ".splat"@
}

/// The extension that a photo is stored with: its own, or `jpg` where the
/// uploaded file has none.
pub open spec fn photo_extension(extension: Option<Seq<char>>) -> Seq<char> {
    match extension {
        Some(e) => e,
        None => "jpg"@,
    }
}

/// The name under which an uploaded photo is stored.
pub open spec fn photo_file_name(
    uuid: Seq<char>,
    date: Seq<char>,
    extension: Option<Seq<char>>,
) -> Seq<char> {
    "photo_"@ + uuid + "_"@ + date + "."@ + photo_extension(extension)
}

/// The name under which an uploaded video is stored.
pub open spec fn video_file_name(uuid: Seq<char>, date: Seq<char>) -> Seq<char> {
    "video_"@ + uuid + "_"@ + date + ".mp4"@
}

fn stamped_name(prefix: &str, uuid: &str, date: &str, dot_extension: &str) -> (r: String)
    ensures
        r@ == prefix@ + uuid@ + "_"@ + date@ + dot_extension@,
{
    String::from_str(prefix).concat(uuid).concat("_").concat(date).concat(dot_extension)
}

/// Builds the stored name of a model from a UUID and a date.
pub fn model_filename(uuid: &str, date: &str) -> (r: String)
    ensures
        r@ == model_file_name(uuid@, date@),
{
    stamped_name("model_", uuid, date, ".splat")
}

/// Builds the stored name of a photo from a UUID, a date and the extension
/// of the uploaded file, if it has one.
pub fn photo_filename(uuid: &str, date: &str, extension: Option<String>) -> (r: String)
    ensures
        r@ == photo_file_name(
            uuid@,
            date@,
            match extension {
                Some(e) => Some(e@),
                None => None,
            },
        ),
{
    let stem = stamped_name("photo_", uuid, date, ".");
    match extension {
        Some(e) => stem.concat(e.as_str()),
        None => stem.concat("jpg"),
    }
}

/// Builds the stored name of a video from a UUID and a date.
pub fn video_filename(uuid: &str, date: &str) -> (r: String)
    ensures
        r@ == video_file_name(uuid@, date@),
{
    stamped_name("video_", uuid, date, ".mp4")
}

/// Whether an uploaded file is named as a model file.
pub open spec fn is_model_file(uploaded_name: Seq<char>) -> bool {
    is_suffix(uploaded_name, ".splat"@)
}

/// Decides on the file of a model upload. A file whose name does not end in
/// `.splat` is refused. Otherwise the file gets a new stored name, made of
/// a random UUID and today's date.
pub fn accept_model_file(uploaded_name: &str) -> (r: Result<String, Status>)
    ensures
        !is_model_file(uploaded_name@) ==> r == Err::<String, Status>(Status::BadRequest),
        is_model_file(uploaded_name@) ==> r is Ok && exists|uuid: Seq<char>, date: Seq<char>|
            is_uuid_text(uuid) && r->Ok_0@ == model_file_name(uuid, date),
{
    if !ends_with(uploaded_name, ".splat") {
        return Err(Status::BadRequest);
    }
    let uuid = random_uuid_text();
    let date = local_date_text("%Y%m%d");
    let name = model_filename(uuid.as_str(), date.as_str());
    assert(is_uuid_text(uuid@) && name@ == model_file_name(uuid@, date@));
    Ok(name)
}

/// Decides on the file of a photo upload: it gets a new stored name, made
/// of a random UUID, today's date and the extension of the uploaded file.
pub fn accept_photo_file(uploaded_name: &str) -> (r: String)
    ensures
        exists|uuid: Seq<char>, date: Seq<char>, extension: Option<Seq<char>>|
            is_uuid_text(uuid) && r@ == photo_file_name(uuid, date, extension),
{
    let extension = path_extension(uploaded_name);
    let ghost shown = match &extension {
        Some(e) => Some(e@),
        None => None,
    };
    let uuid = random_uuid_text();
    let date = local_date_text("%Y%m%d");
    let name = photo_filename(uuid.as_str(), date.as_str(), extension);
    assert(is_uuid_text(uuid@) && name@ == photo_file_name(uuid@, date@, shown));
    name
}

/// Decides on the file of a video upload: it gets a new stored name, made
/// of a random UUID and today's date.
pub fn accept_video_file() -> (r: String)
    ensures
        exists|uuid: Seq<char>, date: Seq<char>|
            is_uuid_text(uuid) && r@ == video_file_name(uuid, date),
{
    let uuid = random_uuid_text();
    let date = local_date_text("%Y%m%d");
    let name = video_filename(uuid.as_str(), date.as_str());
    assert(is_uuid_text(uuid@) && name@ == video_file_name(uuid@, date@));
    name
}

/// The bytes that are written for an uploaded model: its whole records.
pub fn model_file_contents(data: Vec<u8>) -> (r: Vec<u8>)
    ensures
        r@ == aligned_prefix(data@),
        r@.len() % 24 == 0,
{
    align(data).aligned
}

/// An uploaded photo must hold at least one byte.
pub fn check_photo_data(data: &Vec<u8>) -> (r: Result<(), Status>)
    ensures
        r is Ok <==> data@.len() > 0,
        r is Err ==> r == Err::<(), Status>(Status::BadRequest),
{
    if data.len() == 0 {
        Err(Status::BadRequest)
    } else {
        Ok(())
    }
}

/// Whether an upload form gave a name, a category and a file.
pub open spec fn form_complete(name: Seq<char>, category: Seq<char>, filename: Seq<char>) -> bool {
    name.len() > 0 && category.len() > 0 && filename.len() > 0
}

/// Whether an upload form can be recorded: it is complete and its category
/// is a well-formed identifier.
pub open spec fn form_accepted(name: Seq<char>, category: Seq<char>, filename: Seq<char>) -> bool {
    form_complete(name, category, filename) && parsed_id(category) is Some
}

fn checked_category(name: &String, category: &String, filename: &String) -> (r: Result<
    ObjectId,
    Status,
>)
    ensures
        form_accepted(name@, category@, filename@) ==> r is Ok && r->Ok_0@ == parsed_id(
            category@,
        )->0,
        !form_accepted(name@, category@, filename@) ==> r == Err::<ObjectId, Status>(
            Status::BadRequest,
        ),
{
    if is_blank(name.as_str()) || is_blank(category.as_str()) || is_blank(filename.as_str()) {
        return Err(Status::BadRequest);
    }
    match ObjectId::parse_str(category.as_str()) {
        Ok(id) => Ok(id),
        Err(_) => Err(Status::BadRequest),
    }
}

/// Makes the record of an uploaded model once the form has been read. A form
/// without name, category or file, or with a malformed category identifier,
/// is a bad request.
pub fn upload_model(name: String, category: String, filename: String) -> (r: Result<Model, Status>)
    ensures
        !form_accepted(name@, category@, filename@) ==> r == Err::<Model, Status>(
            Status::BadRequest,
        ),
        form_accepted(name@, category@, filename@) ==> {
            &&& r is Ok
            &&& r->Ok_0.id is None
            &&& r->Ok_0.name@ == name@
            &&& r->Ok_0.filename@ == filename@
            &&& r->Ok_0.category_id@ == parsed_id(category@)->0
        },
{
    match checked_category(&name, &category, &filename) {
        Ok(id) => Ok(Model::new(name, filename, id)),
        Err(e) => Err(e),
    }
}

/// Makes the record of an uploaded photo once the form has been read, on the
/// same conditions as for a model.
pub fn upload_photo(name: String, category: String, filename: String) -> (r: Result<Photo, Status>)
    ensures
        !form_accepted(name@, category@, filename@) ==> r == Err::<Photo, Status>(
            Status::BadRequest,
        ),
        form_accepted(name@, category@, filename@) ==> {
            &&& r is Ok
            &&& r->Ok_0.id is None
            &&& r->Ok_0.name@ == name@
            &&& r->Ok_0.filename@ == filename@
            &&& r->Ok_0.category_id@ == parsed_id(category@)->0
        },
{
    match checked_category(&name, &category, &filename) {
        Ok(id) => Ok(Photo::new(name, filename, id)),
        Err(e) => Err(e),
    }
}

/// Makes the record of an uploaded video once the form has been read, on the
/// same conditions as for a model.
pub fn upload_video(name: String, category: String, filename: String) -> (r: Result<Video, Status>)
    ensures
        !form_accepted(name@, category@, filename@) ==> r == Err::<Video, Status>(
            Status::BadRequest,
        ),
        form_accepted(name@, category@, filename@) ==> {
            &&& r is Ok
            &&& r->Ok_0.id is None
            &&& r->Ok_0.name@ == name@
            &&& r->Ok_0.filename@ == filename@
            &&& r->Ok_0.category_id@ == parsed_id(category@)->0
        },
{
    match checked_category(&name, &category, &filename) {
        Ok(id) => Ok(Video::new(name, filename, id)),
        Err(e) => Err(e),
    }
}

/// What a client is told after an upload.
#[derive(Debug)]
pub struct UploadReceipt {
    pub url: String,
    pub filename: String,
    /// Stated for models and photos, left out for videos.
    pub success: Option<bool>,
}

/// The receipt of an upload, or an internal error where the store did not
/// take the record.
pub open spec fn receipt_for(
    prefix: Seq<char>,
    filename: Seq<char>,
    success: Option<bool>,
    recorded: bool,
    r: Result<UploadReceipt, Status>,
) -> bool {
    if recorded {
        &&& r is Ok
        &&& r->Ok_0.url@ == prefix + filename
        &&& r->Ok_0.filename@ == filename
        &&& r->Ok_0.success == success
    } else {
        r == Err::<UploadReceipt, Status>(Status::InternalServerError)
    }
}

fn receipt(prefix: &str, filename: String, success: Option<bool>, recorded: bool) -> (r: Result<
    UploadReceipt,
    Status,
>)
    ensures
        receipt_for(prefix@, filename@, success, recorded, r),
{
    if recorded {
        Ok(UploadReceipt { url: join2(prefix, filename.as_str()), filename, success })
    } else {
        Err(Status::InternalServerError)
    }
}

/// Answers a model upload, given whether the store took the record.
pub fn model_receipt(filename: String, recorded: bool) -> (r: Result<UploadReceipt, Status>)
    ensures
        receipt_for(models_prefix(), filename@, Some(true), recorded, r),
{
    receipt("/static/models/", filename, Some(true), recorded)
}

/// Answers a photo upload, given whether the store took the record.
pub fn photo_receipt(filename: String, recorded: bool) -> (r: Result<UploadReceipt, Status>)
    ensures
        receipt_for(photos_prefix(), filename@, Some(true), recorded, r),
{
    receipt("/static/photos/", filename, Some(true), recorded)
}

/// Answers a video upload, given whether the store took the record.
pub fn video_receipt(filename: String, recorded: bool) -> (r: Result<UploadReceipt, Status>)
    ensures
        receipt_for(videos_prefix(), filename@, None, recorded, r),
{
    receipt("/static/videos/", filename, None, recorded)
}

} // verus!
