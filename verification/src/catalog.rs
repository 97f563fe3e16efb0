//! Joining stored assets with the categories they are filed under.

use vstd::prelude::*;
use vstd::string::StringExecFns;
use crate::ids::ObjectId;
use crate::status::Status;
use crate::records::{
    id_or, Category, Model, ModelResponse, Photo, PhotoResponse, Video, VideoResponse,
};

verus! {

/// The name given to an asset whose category is not among the known ones.
pub open spec fn unknown_category() -> Seq<char> {
    "Unknown Category"@
}

/// The views of a list of identifiers, in order.
pub open spec fn id_views(ids: Seq<ObjectId>) -> Seq<Seq<u8>> {
    Seq::new(ids.len(), |i: int| ids[i]@)
}

/// The identifier that category `i` is compared by: its own, or its stand-in
/// where it has none.
pub open spec fn compared_id(categories: Seq<Category>, stand_ins: Seq<Seq<u8>>, i: int) -> Seq<
    u8,
> {
    id_or(categories[i].id, stand_ins[i])
}

/// The name of the first category from position `from` on whose identifier is
/// `target`, or the name for an unknown category where there is none.
pub open spec fn resolved_from(
    categories: Seq<Category>,
    stand_ins: Seq<Seq<u8>>,
    target: Seq<u8>,
    from: int,
) -> Seq<char>
    decreases categories.len() - from,
{
    if from < 0 || from >= categories.len() {
        unknown_category()
    } else if compared_id(categories, stand_ins, from) == target {
        categories[from].name@
    } else {
        resolved_from(categories, stand_ins, target, from + 1)
    }
}

/// The name of the category with identifier `target`: that of the first one
/// in the list that has it.
pub open spec fn resolved_name(
    categories: Seq<Category>,
    stand_ins: Seq<Seq<u8>>,
    target: Seq<u8>,
) -> Seq<char> {
    resolved_from(categories, stand_ins, target, 0)
}

/// Whether every category carries an identifier of its own.
pub open spec fn all_identified(categories: Seq<Category>) -> bool {
    forall|i: int| 0 <= i < categories.len() ==> (#[trigger] categories[i]).id is Some
}

/// Where no category before `hit` has the identifier and the one at `hit`
/// has it, the name found is that of `hit`.
pub proof fn lemma_first_hit(
    categories: Seq<Category>,
    stand_ins: Seq<Seq<u8>>,
    target: Seq<u8>,
    from: int,
    hit: int,
)
    requires
        0 <= from <= hit < categories.len(),
        forall|j: int| from <= j < hit ==> compared_id(categories, stand_ins, j) != target,
        compared_id(categories, stand_ins, hit) == target,
    ensures
        resolved_from(categories, stand_ins, target, from) == categories[hit].name@,
    decreases hit - from,
{
    if from < hit {
        lemma_first_hit(categories, stand_ins, target, from + 1, hit);
    }
}

/// Where no category from `from` on has the identifier, the name found is
/// the one for an unknown category.
pub proof fn lemma_no_hit(
    categories: Seq<Category>,
    stand_ins: Seq<Seq<u8>>,
    target: Seq<u8>,
    from: int,
)
    requires
        0 <= from <= categories.len(),
        forall|j: int|
            from <= j < categories.len() ==> compared_id(categories, stand_ins, j) != target,
    ensures
        resolved_from(categories, stand_ins, target, from) == unknown_category(),
    decreases categories.len() - from,
{
    if from < categories.len() {
        lemma_no_hit(categories, stand_ins, target, from + 1);
    }
}

/// Stand-ins play no part where every category has an identifier of its own.
pub proof fn lemma_stand_ins_unused(
    categories: Seq<Category>,
    a: Seq<Seq<u8>>,
    b: Seq<Seq<u8>>,
    target: Seq<u8>,
    from: int,
)
    requires
        all_identified(categories),
        0 <= from,
    ensures
        resolved_from(categories, a, target, from) == resolved_from(categories, b, target, from),
    decreases categories.len() - from,
{
    if from < categories.len() {
        assert(categories[from].id is Some);
        lemma_stand_ins_unused(categories, a, b, target, from + 1);
    }
}

/// Finds the name of the category with identifier `target`, comparing each
/// category without an identifier by its stand-in.
pub fn category_name_with(
    categories: &Vec<Category>,
    stand_ins: &Vec<ObjectId>,
    target: &ObjectId,
) -> (name: String)
    requires
        stand_ins@.len() == categories@.len(),
    ensures
        name@ == resolved_name(categories@, id_views(stand_ins@), target@),
{
    let mut i: usize = 0;
    while i < categories.len()
        invariant
            i <= categories@.len(),
            stand_ins@.len() == categories@.len(),
            forall|j: int|
                0 <= j < i ==> compared_id(categories@, id_views(stand_ins@), j) != target@,
        decreases categories@.len() - i,
    {
        let id = match categories[i].id {
            Some(own) => own,
            None => stand_ins[i],
        };
        if id.same(target) {
            proof {
                lemma_first_hit(categories@, id_views(stand_ins@), target@, 0, i as int);
            }
            return categories[i].name.clone();
        }
        i = i + 1;
    }
    proof {
        lemma_no_hit(categories@, id_views(stand_ins@), target@, 0);
    }
    String::from_str("Unknown Category")
}

/// Finds the name of the category with identifier `target`. A category
/// without an identifier is compared by a newly made one, so the result is
/// what `category_name_with` gives for some stand-ins; where every category
/// has its own identifier it is the name of the first one with `target`.
pub fn category_name(categories: &Vec<Category>, target: &ObjectId) -> (name: String)
    ensures
        exists|stand_ins: Seq<Seq<u8>>|
            stand_ins.len() == categories@.len() && name@ == resolved_name(
                categories@,
                stand_ins,
                target@,
            ),
        all_identified(categories@) ==> name@ == resolved_name(
            categories@,
            Seq::<Seq<u8>>::empty(),
            target@,
        ),
{
    let ghost mut used: Seq<Seq<u8>> = Seq::empty();
    let mut i: usize = 0;
    while i < categories.len()
        invariant
            i <= categories@.len(),
            used.len() == i,
            forall|j: int| 0 <= j < i ==> id_or(categories@[j].id, used[j]) != target@,
        decreases categories@.len() - i,
    {
        let id = match categories[i].id {
            Some(own) => own,
            None => ObjectId::new(),
        };
        proof {
            used = used.push(id@);
        }
        if id.same(target) {
            let name = categories[i].name.clone();
            proof {
                let n = categories@.len();
                let all = Seq::new(n, |k: int| if k < used.len() { used[k] } else { used[0] });
                assert forall|j: int| 0 <= j < i implies compared_id(categories@, all, j)
                    != target@ by {
                    assert(all[j] == used[j]);
                }
                assert(all[i as int] == used[i as int]);
                lemma_first_hit(categories@, all, target@, 0, i as int);
                if all_identified(categories@) {
                    lemma_stand_ins_unused(categories@, all, Seq::empty(), target@, 0);
                }
                assert(all.len() == n && name@ == resolved_name(categories@, all, target@));
            }
            return name;
        }
        i = i + 1;
    }
    proof {
        assert(used.len() == categories@.len());
        assert forall|j: int| 0 <= j < categories@.len() implies compared_id(
            categories@,
            used,
            j,
        ) != target@ by {}
        lemma_no_hit(categories@, used, target@, 0);
        if all_identified(categories@) {
            lemma_stand_ins_unused(categories@, used, Seq::empty(), target@, 0);
        }
    }
    let name = String::from_str("Unknown Category");
    assert(used.len() == categories@.len() && name@ == resolved_name(categories@, used, target@));
    name
}

/// Whether `r` is the entry that the listing owes for model `m`: the model's
/// own description, with the name of its category filled in.
pub open spec fn model_entry(m: Model, r: ModelResponse, categories: Seq<Category>) -> bool {
    &&& exists|stand_in: Seq<u8>| m.same_asset(r, stand_in)
    &&& exists|stand_ins: Seq<Seq<u8>>|
        stand_ins.len() == categories.len() && r.category_name@ == resolved_name(
            categories,
            stand_ins,
            m.category_id@,
        )
    &&& all_identified(categories) ==> r.category_name@ == resolved_name(
        categories,
        Seq::<Seq<u8>>::empty(),
        m.category_id@,
    )
}

/// Describes every model, each with the name of its category or the name
/// for an unknown one, in the order given.
pub fn get_models(categories: &Vec<Category>, models: &Vec<Model>) -> (out: Vec<ModelResponse>)
    ensures
        out@.len() == models@.len(),
        forall|i: int|
            0 <= i < models@.len() ==> model_entry(models@[i], #[trigger] out@[i], categories@),
{
    let mut out: Vec<ModelResponse> = Vec::new();
    let mut i: usize = 0;
    while i < models.len()
        invariant
            i <= models@.len(),
            out@.len() == i,
            forall|j: int| 0 <= j < i ==> model_entry(models@[j], #[trigger] out@[j], categories@),
        decreases models@.len() - i,
    {
        let model = &models[i];
        let mut entry = model.to_response();
        let ghost stand_in = choose|stand_in: Seq<u8>| model.describes(entry, stand_in);
        entry.category_name = category_name(categories, &model.category_id);
        assert(model.same_asset(entry, stand_in));
        out.push(entry);
        i = i + 1;
    }
    out
}

/// Whether `r` is the entry that the listing owes for photo `m`: the photo's
/// own description, with the name of its category filled in.
pub open spec fn photo_entry(m: Photo, r: PhotoResponse, categories: Seq<Category>) -> bool {
    &&& exists|stand_in: Seq<u8>| m.same_asset(r, stand_in)
    &&& exists|stand_ins: Seq<Seq<u8>>|
        stand_ins.len() == categories.len() && r.category_name@ == resolved_name(
            categories,
            stand_ins,
            m.category_id@,
        )
    &&& all_identified(categories) ==> r.category_name@ == resolved_name(
        categories,
        Seq::<Seq<u8>>::empty(),
        m.category_id@,
    )
}

/// Describes every photo, each with the name of its category or the name
/// for an unknown one, in the order given.
pub fn get_photos(categories: &Vec<Category>, photos: &Vec<Photo>) -> (out: Vec<PhotoResponse>)
    ensures
        out@.len() == photos@.len(),
        forall|i: int|
            0 <= i < photos@.len() ==> photo_entry(photos@[i], #[trigger] out@[i], categories@),
{
    let mut out: Vec<PhotoResponse> = Vec::new();
    let mut i: usize = 0;
    while i < photos.len()
        invariant
            i <= photos@.len(),
            out@.len() == i,
            forall|j: int| 0 <= j < i ==> photo_entry(photos@[j], #[trigger] out@[j], categories@),
        decreases photos@.len() - i,
    {
        let photo = &photos[i];
        let mut entry = photo.to_response();
        let ghost stand_in = choose|stand_in: Seq<u8>| photo.describes(entry, stand_in);
        entry.category_name = category_name(categories, &photo.category_id);
        assert(photo.same_asset(entry, stand_in));
        out.push(entry);
        i = i + 1;
    }
    out
}

/// Whether `r` is the entry that the listing owes for video `m`: the video's
/// own description, with the name of its category filled in.
pub open spec fn video_entry(m: Video, r: VideoResponse, categories: Seq<Category>) -> bool {
    &&& exists|stand_in: Seq<u8>| m.same_asset(r, stand_in)
    &&& exists|stand_ins: Seq<Seq<u8>>|
        stand_ins.len() == categories.len() && r.category_name@ == resolved_name(
            categories,
            stand_ins,
            m.category_id@,
        )
    &&& all_identified(categories) ==> r.category_name@ == resolved_name(
        categories,
        Seq::<Seq<u8>>::empty(),
        m.category_id@,
    )
}

/// Describes every video, each with the name of its category or the name
/// for an unknown one, in the order given.
pub fn get_videos(categories: &Vec<Category>, videos: &Vec<Video>) -> (out: Vec<VideoResponse>)
    ensures
        out@.len() == videos@.len(),
        forall|i: int|
            0 <= i < videos@.len() ==> video_entry(videos@[i], #[trigger] out@[i], categories@),
{
    let mut out: Vec<VideoResponse> = Vec::new();
    let mut i: usize = 0;
    while i < videos.len()
        invariant
            i <= videos@.len(),
            out@.len() == i,
            forall|j: int| 0 <= j < i ==> video_entry(videos@[j], #[trigger] out@[j], categories@),
        decreases videos@.len() - i,
    {
        let video = &videos[i];
        let mut entry = video.to_response();
        let ghost stand_in = choose|stand_in: Seq<u8>| video.describes(entry, stand_in);
        entry.category_name = category_name(categories, &video.category_id);
        assert(video.same_asset(entry, stand_in));
        out.push(entry);
        i = i + 1;
    }
    out
}

/// Answers the creation of a category with the category as stored: under
/// the identifier that the store assigned, with the name that was sent.
/// `None` stands for a store that did not take the record, which is an
/// internal error.
pub fn create_category(category: Category, assigned: Option<ObjectId>) -> (r: Result<
    Category,
    Status,
>)
    ensures
        match assigned {
            Some(id) => {
                &&& r is Ok
                &&& r->Ok_0.id is Some
                &&& r->Ok_0.id->0@ == id@
                &&& r->Ok_0.name@ == category.name@
            },
            None => r == Err::<Category, Status>(Status::InternalServerError),
        },
{
    match assigned {
        Some(id) => Ok(Category { id: Some(id), name: category.name }),
        None => Err(Status::InternalServerError),
    }
}

} // verus!
