//! Listing the stored files of a folder as the URLs they are served under.

use vstd::prelude::*;
use vstd::string::StrSliceExecFns;
use crate::records::{models_prefix, photos_prefix, videos_prefix};
use crate::status::Status;
use crate::text::{ends_with, is_suffix, join2};

verus! {

/// One entry of a storage folder.
#[derive(Debug)]
pub struct DirEntry {
    pub name: String,
    /// Whether the entry is a regular file.
    pub is_file: bool,
}

/// Whether a file name has the extension of a model file: it ends in
/// `.splat` and has something before that.
pub open spec fn has_model_extension(name: Seq<char>) -> bool {
    is_suffix(name, ".splat"@) && name.len() > 6
}

/// Whether an entry appears in the listing.
pub open spec fn is_listed(entry: DirEntry, models_only: bool) -> bool {
    entry.is_file && (models_only ==> has_model_extension(entry.name@))
}

/// The URLs of the listed entries, in the order of the entries.
pub open spec fn listed_urls(entries: Seq<DirEntry>, prefix: Seq<char>, models_only: bool) -> Seq<
    Seq<char>,
>
    decreases entries.len(),
{
    if entries.len() == 0 {
        Seq::empty()
    } else {
        let before = listed_urls(entries.drop_last(), prefix, models_only);
        if is_listed(entries.last(), models_only) {
            before.push(prefix + entries.last().name@)
        } else {
            before
        }
    }
}

/// The texts of a list of strings, in order.
pub open spec fn texts(strings: Seq<String>) -> Seq<Seq<char>> {
    Seq::new(strings.len(), |i: int| strings[i]@)
}

/// What a listing answers: the URLs of the entries, or an internal error
/// where the folder could not be read.
pub open spec fn listing_of(
    entries: Option<Vec<DirEntry>>,
    prefix: Seq<char>,
    models_only: bool,
    r: Result<Vec<String>, Status>,
) -> bool {
    match entries {
        Some(found) => r is Ok && texts(r->Ok_0@) == listed_urls(found@, prefix, models_only),
        None => r == Err::<Vec<String>, Status>(Status::InternalServerError),
    }
}

fn has_model_ext(name: &str) -> (b: bool)
    ensures
        b == has_model_extension(name@),
{
    ends_with(name, ".splat") && name.unicode_len() > 6
}

fn list_folder(entries: Option<Vec<DirEntry>>, prefix: &str, models_only: bool) -> (r: Result<
    Vec<String>,
    Status,
>)
    ensures
        listing_of(entries, prefix@, models_only, r),
{
    let found = match entries {
        Some(found) => found,
        None => {
            return Err(Status::InternalServerError);
        },
    };
    let mut urls: Vec<String> = Vec::new();
    let mut i: usize = 0;
    while i < found.len()
        invariant
            i <= found@.len(),
            texts(urls@) == listed_urls(found@.take(i as int), prefix@, models_only),
        decreases found@.len() - i,
    {
        let entry = &found[i];
        let show: bool = entry.is_file && (!models_only || has_model_ext(entry.name.as_str()));
        let ghost before = urls@;
        if show {
            urls.push(join2(prefix, entry.name.as_str()));
        }
        proof {
            let next = found@.take(i + 1);
            assert(next.drop_last() =~= found@.take(i as int));
            assert(next.last() == found@[i as int]);
            if show {
                assert(texts(urls@) =~= texts(before).push(prefix@ + entry.name@));
            }
        }
        i = i + 1;
    }
    assert(found@.take(found@.len() as int) =~= found@);
    Ok(urls)
}

/// Lists the stored models: the regular files of the folder that have the
/// extension of a model file. `None` stands for a folder that could not be
/// read.
pub fn list_models(entries: Option<Vec<DirEntry>>) -> (r: Result<Vec<String>, Status>)
    ensures
        listing_of(entries, models_prefix(), true, r),
{
    list_folder(entries, "/static/models/", true)
}

/// Lists the stored photos: every regular file of the folder.
pub fn list_photos(entries: Option<Vec<DirEntry>>) -> (r: Result<Vec<String>, Status>)
    ensures
        listing_of(entries, photos_prefix(), false, r),
{
    list_folder(entries, "/static/photos/", false)
}

/// Lists the stored videos: every regular file of the folder.
pub fn list_videos(entries: Option<Vec<DirEntry>>) -> (r: Result<Vec<String>, Status>)
    ensures
        listing_of(entries, videos_prefix(), false, r),
{
    list_folder(entries, "/static/videos/", false)
}

} // verus!
