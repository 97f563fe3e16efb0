//! The records kept for categories and stored assets, and the answers that
//! describe them to clients.

use vstd::prelude::*;
use crate::ids::{hex_text, ObjectId};
use crate::text::join2;

verus! {

/// A point in time, in milliseconds since the start of 1970 (UTC).
#[derive(Clone, Copy, Debug, PartialEq, Eq, Structural)]
pub struct Timestamp {
    pub millis: i64,
}

/// Reads the clock with `DateTime::now` of the BSON library and gives its
/// milliseconds. The value depends on the moment of the call.
#[verifier::external_body]
fn clock_millis() -> (r: i64) {
    mongodb::bson::DateTime::now().timestamp_millis()
}

impl Timestamp {
    /// The current time. Each call may give a different one.
    pub fn now() -> (t: Timestamp) {
        Timestamp { millis: clock_millis() }
    }
}

/// A category that assets are filed under.
#[derive(Debug)]
pub struct Category {
    /// Absent until the store has assigned one.
    pub id: Option<ObjectId>,
    pub name: String,
}

/// The path under which a stored file of each kind is served.
pub open spec fn models_prefix() -> Seq<char> {
    "/static/models/"@
}

pub open spec fn photos_prefix() -> Seq<char> {
    "/static/photos/"@
}

pub open spec fn videos_prefix() -> Seq<char> {
    "/static/videos/"@
}

/// The identifier that a record is described with: its own, or the given
/// stand-in while the store has assigned none.
pub open spec fn id_or(id: Option<ObjectId>, stand_in: Seq<u8>) -> Seq<u8> {
    match id {
        Some(i) => i@,
        None => stand_in,
    }
}

fn own_id_or_new(id: Option<ObjectId>) -> (r: ObjectId)
    ensures
        id is Some ==> r@ == id->0@,
{
    match id {
        Some(i) => i,
        None => ObjectId::new(),
    }
}

/// A stored 3D model.
#[derive(Debug)]
pub struct Model {
    /// Absent until the store has assigned one.
    pub id: Option<ObjectId>,
    pub name: String,
    pub filename: String,
    pub category_id: ObjectId,
    pub created_at: Timestamp,
}

/// A 3D model as it is described to clients.
#[derive(Debug)]
pub struct ModelResponse {
    pub id: String,
    pub name: String,
    pub filename: String,
    pub url: String,
    pub category_id: String,
    pub category_name: String,
    pub created_at: Timestamp,
}

impl Model {
    /// A record for a newly stored model, created now and without an
    /// identifier yet.
    pub fn new(name: String, filename: String, category_id: ObjectId) -> (m: Model)
        ensures
            m.id is None,
            m.name@ == name@,
            m.filename@ == filename@,
            m.category_id@ == category_id@,
    {
        Model { id: None, name, filename, category_id, created_at: Timestamp::now() }
    }

    /// Whether `r` describes this record, whatever category name it
    /// carries, with `stand_in` as the identifier of a record without one.
    pub open spec fn same_asset(&self, r: ModelResponse, stand_in: Seq<u8>) -> bool {
        &&& r.id@ == hex_text(id_or(self.id, stand_in))
        &&& r.name@ == self.name@
        &&& r.filename@ == self.filename@
        &&& r.url@ == models_prefix() + self.filename@
        &&& r.category_id@ == hex_text(self.category_id@)
        &&& r.created_at == self.created_at
    }

    /// What `to_response` gives when `stand_in` is the identifier used for a
    /// record without one.
    pub open spec fn describes(&self, r: ModelResponse, stand_in: Seq<u8>) -> bool {
        self.same_asset(r, stand_in) && r.category_name@ == Seq::<char>::empty()
    }

    /// Describes the model, with `stand_in` as the identifier of a record
    /// that has none.
    pub fn to_response_with(&self, stand_in: ObjectId) -> (r: ModelResponse)
        ensures
            self.describes(r, stand_in@),
    {
        let id = match self.id {
            Some(i) => i,
            None => stand_in,
        };
        ModelResponse {
            id: id.to_hex(),
            name: self.name.clone(),
            filename: self.filename.clone(),
            url: join2("/static/models/", self.filename.as_str()),
            category_id: self.category_id.to_hex(),
            category_name: String::new(),
            created_at: self.created_at,
        }
    }

    /// Describes the model. The category name is left empty. A record without
    /// an identifier is described with a newly made one.
    pub fn to_response(&self) -> (r: ModelResponse)
        ensures
            exists|stand_in: Seq<u8>| self.describes(r, stand_in),
            self.id is Some ==> self.describes(r, self.id->0@),
    {
        let stand_in = own_id_or_new(self.id);
        self.to_response_with(stand_in)
    }
}

/// A stored photo.
#[derive(Debug)]
pub struct Photo {
    /// Absent until the store has assigned one.
    pub id: Option<ObjectId>,
    pub name: String,
    pub filename: String,
    pub category_id: ObjectId,
    pub created_at: Timestamp,
}

/// A photo as it is described to clients.
#[derive(Debug)]
pub struct PhotoResponse {
    pub id: String,
    pub name: String,
    pub filename: String,
    pub url: String,
    pub category_id: String,
    pub category_name: String,
    pub created_at: Timestamp,
}

impl Photo {
    /// A record for a newly stored photo, created now and without an
    /// identifier yet.
    pub fn new(name: String, filename: String, category_id: ObjectId) -> (m: Photo)
        ensures
            m.id is None,
            m.name@ == name@,
            m.filename@ == filename@,
            m.category_id@ == category_id@,
    {
        Photo { id: None, name, filename, category_id, created_at: Timestamp::now() }
    }

    /// Whether `r` describes this record, whatever category name it
    /// carries, with `stand_in` as the identifier of a record without one.
    pub open spec fn same_asset(&self, r: PhotoResponse, stand_in: Seq<u8>) -> bool {
        &&& r.id@ == hex_text(id_or(self.id, stand_in))
        &&& r.name@ == self.name@
        &&& r.filename@ == self.filename@
        &&& r.url@ == photos_prefix() + self.filename@
        &&& r.category_id@ == hex_text(self.category_id@)
        &&& r.created_at == self.created_at
    }

    /// What `to_response` gives when `stand_in` is the identifier used for a
    /// record without one.
    pub open spec fn describes(&self, r: PhotoResponse, stand_in: Seq<u8>) -> bool {
        self.same_asset(r, stand_in) && r.category_name@ == Seq::<char>::empty()
    }

    /// Describes the photo, with `stand_in` as the identifier of a record
    /// that has none.
    pub fn to_response_with(&self, stand_in: ObjectId) -> (r: PhotoResponse)
        ensures
            self.describes(r, stand_in@),
    {
        let id = match self.id {
            Some(i) => i,
            None => stand_in,
        };
        PhotoResponse {
            id: id.to_hex(),
            name: self.name.clone(),
            filename: self.filename.clone(),
            url: join2("/static/photos/", self.filename.as_str()),
            category_id: self.category_id.to_hex(),
            category_name: String::new(),
            created_at: self.created_at,
        }
    }

    /// Describes the photo. The category name is left empty. A record without
    /// an identifier is described with a newly made one.
    pub fn to_response(&self) -> (r: PhotoResponse)
        ensures
            exists|stand_in: Seq<u8>| self.describes(r, stand_in),
            self.id is Some ==> self.describes(r, self.id->0@),
    {
        let stand_in = own_id_or_new(self.id);
        self.to_response_with(stand_in)
    }
}

/// A stored video.
#[derive(Debug)]
pub struct Video {
    /// Absent until the store has assigned one.
    pub id: Option<ObjectId>,
    pub name: String,
    pub filename: String,
    pub category_id: ObjectId,
    pub created_at: Timestamp,
}

/// A video as it is described to clients.
#[derive(Debug)]
pub struct VideoResponse {
    pub id: String,
    pub name: String,
    pub filename: String,
    pub url: String,
    pub category_id: String,
    pub category_name: String,
    pub created_at: Timestamp,
}

impl Video {
    /// A record for a newly stored video, created now and without an
    /// identifier yet.
    pub fn new(name: String, filename: String, category_id: ObjectId) -> (m: Video)
        ensures
            m.id is None,
            m.name@ == name@,
            m.filename@ == filename@,
            m.category_id@ == category_id@,
    {
        Video { id: None, name, filename, category_id, created_at: Timestamp::now() }
    }

    /// Whether `r` describes this record, whatever category name it
    /// carries, with `stand_in` as the identifier of a record without one.
    pub open spec fn same_asset(&self, r: VideoResponse, stand_in: Seq<u8>) -> bool {
        &&& r.id@ == hex_text(id_or(self.id, stand_in))
        &&& r.name@ == self.name@
        &&& r.filename@ == self.filename@
        &&& r.url@ == videos_prefix() + self.filename@
        &&& r.category_id@ == hex_text(self.category_id@)
        &&& r.created_at == self.created_at
    }

    /// What `to_response` gives when `stand_in` is the identifier used for a
    /// record without one.
    pub open spec fn describes(&self, r: VideoResponse, stand_in: Seq<u8>) -> bool {
        self.same_asset(r, stand_in) && r.category_name@ == Seq::<char>::empty()
    }

    /// Describes the video, with `stand_in` as the identifier of a record
    /// that has none.
    pub fn to_response_with(&self, stand_in: ObjectId) -> (r: VideoResponse)
        ensures
            self.describes(r, stand_in@),
    {
        let id = match self.id {
            Some(i) => i,
            None => stand_in,
        };
        VideoResponse {
            id: id.to_hex(),
            name: self.name.clone(),
            filename: self.filename.clone(),
            url: join2("/static/videos/", self.filename.as_str()),
            category_id: self.category_id.to_hex(),
            category_name: String::new(),
            created_at: self.created_at,
        }
    }

    /// Describes the video. The category name is left empty. A record without
    /// an identifier is described with a newly made one.
    pub fn to_response(&self) -> (r: VideoResponse)
        ensures
            exists|stand_in: Seq<u8>| self.describes(r, stand_in),
            self.id is Some ==> self.describes(r, self.id->0@),
    {
        let stand_in = own_id_or_new(self.id);
        self.to_response_with(stand_in)
    }
}

} // verus!
