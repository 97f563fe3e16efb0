use portfolio_backend::status::Status;
use portfolio_backend::uploads::{
    accept_model_file, accept_photo_file, accept_video_file, check_photo_data, classify_field,
    model_file_contents, model_filename, model_receipt, photo_filename, photo_receipt,
    upload_model, upload_photo, upload_video, video_filename, video_receipt, FieldKind,
};

const CATEGORY: &str = "0123456789abcdef01234567";

fn is_uuid(s: &str) -> bool {
    s.len() == 36
        && s.chars().enumerate().all(|(i, c)| {
            if i == 8 || i == 13 || i == 18 || i == 23 {
                c == '-'
            } else {
                c.is_ascii_digit() || ('a'..='f').contains(&c)
            }
        })
}

fn check_stamped(name: &str, prefix: &str, suffix: &str) {
    assert!(name.starts_with(prefix), "{}", name);
    assert!(name.ends_with(suffix), "{}", name);
    let middle = &name[prefix.len()..name.len() - suffix.len()];
    assert!(is_uuid(&middle[..36]), "{}", name);
    assert_eq!(&middle[36..37], "_");
    let date = &middle[37..];
    assert!(date.len() >= 8 && date.chars().all(|c| c.is_ascii_digit()), "{}", name);
}

#[test]
fn fields_are_told_apart_by_name() {
    assert_eq!(classify_field("file"), FieldKind::File);
    assert_eq!(classify_field("name"), FieldKind::Name);
    assert_eq!(classify_field("category"), FieldKind::Category);
    assert_eq!(classify_field(""), FieldKind::Other);
    assert_eq!(classify_field("File"), FieldKind::Other);
    assert_eq!(classify_field("files"), FieldKind::Other);
}

#[test]
fn stored_names_are_built_from_uuid_and_date() {
    assert_eq!(model_filename("u-u", "20240131"), "model_u-u_20240131.splat");
    assert_eq!(video_filename("u-u", "20240131"), "video_u-u_20240131.mp4");
    assert_eq!(
        photo_filename("u-u", "20240131", Some("png".to_string())),
        "photo_u-u_20240131.png"
    );
    assert_eq!(photo_filename("u-u", "20240131", None), "photo_u-u_20240131.jpg");
    assert_eq!(photo_filename("u-u", "20240131", Some(String::new())), "photo_u-u_20240131.");
}

#[test]
fn model_file_must_be_named_splat() {
    assert_eq!(accept_model_file("scan.ply").err(), Some(Status::BadRequest));
    assert_eq!(accept_model_file("").err(), Some(Status::BadRequest));
    assert_eq!(accept_model_file("scan.splat.bak").err(), Some(Status::BadRequest));
    assert_eq!(accept_model_file("scan.SPLAT").err(), Some(Status::BadRequest));
}

#[test]
fn accepted_model_file_gets_a_new_name() {
    let a = accept_model_file("scan.splat").unwrap();
    let b = accept_model_file(".splat").unwrap();
    check_stamped(&a, "model_", ".splat");
    check_stamped(&b, "model_", ".splat");
    assert_ne!(a, b);
}

#[test]
fn photo_keeps_the_extension_of_the_upload() {
    check_stamped(&accept_photo_file("holiday.png"), "photo_", ".png");
    check_stamped(&accept_photo_file("archive.tar.gz"), "photo_", ".gz");
    check_stamped(&accept_photo_file("dir.d/holiday.webp"), "photo_", ".webp");
}

#[test]
fn photo_without_extension_is_stored_as_jpg() {
    check_stamped(&accept_photo_file("unknown"), "photo_", ".jpg");
    check_stamped(&accept_photo_file(""), "photo_", ".jpg");
    check_stamped(&accept_photo_file(".hidden"), "photo_", ".jpg");
}

#[test]
fn video_is_stored_as_mp4() {
    check_stamped(&accept_video_file(), "video_", ".mp4");
}

#[test]
fn model_contents_are_cut_to_whole_records() {
    let data: Vec<u8> = (0..50).collect();
    assert_eq!(model_file_contents(data.clone()), data[..48].to_vec());
    assert_eq!(model_file_contents(vec![1; 23]), Vec::<u8>::new());
    assert_eq!(model_file_contents(vec![2; 24]), vec![2; 24]);
}

#[test]
fn empty_photo_is_refused() {
    assert_eq!(check_photo_data(&Vec::new()), Err(Status::BadRequest));
    assert_eq!(check_photo_data(&vec![0]), Ok(()));
}

#[test]
fn complete_form_makes_a_record() {
    let m = upload_model("Castle".to_string(), CATEGORY.to_string(), "m.splat".to_string())
        .unwrap();
    assert!(m.id.is_none());
    assert_eq!(m.name, "Castle");
    assert_eq!(m.filename, "m.splat");
    assert_eq!(m.category_id.to_hex(), CATEGORY);
    let p = upload_photo("Dawn".to_string(), CATEGORY.to_string(), "p.jpg".to_string()).unwrap();
    assert_eq!((p.name.as_str(), p.filename.as_str()), ("Dawn", "p.jpg"));
    assert_eq!(p.category_id.to_hex(), CATEGORY);
    let v = upload_video("Reel".to_string(), CATEGORY.to_string(), "v.mp4".to_string()).unwrap();
    assert_eq!((v.name.as_str(), v.filename.as_str()), ("Reel", "v.mp4"));
    assert_eq!(v.category_id.to_hex(), CATEGORY);
}

#[test]
fn incomplete_form_is_a_bad_request() {
    let full = |s: &str| s.to_string();
    assert_eq!(
        upload_model(String::new(), full(CATEGORY), full("m.splat")).err(),
        Some(Status::BadRequest)
    );
    assert_eq!(
        upload_model(full("Castle"), String::new(), full("m.splat")).err(),
        Some(Status::BadRequest)
    );
    assert_eq!(
        upload_model(full("Castle"), full(CATEGORY), String::new()).err(),
        Some(Status::BadRequest)
    );
    assert_eq!(
        upload_photo(String::new(), full(CATEGORY), full("p.jpg")).err(),
        Some(Status::BadRequest)
    );
    assert_eq!(
        upload_video(full("Reel"), full(CATEGORY), String::new()).err(),
        Some(Status::BadRequest)
    );
}

#[test]
fn malformed_category_is_a_bad_request() {
    let full = |s: &str| s.to_string();
    assert_eq!(
        upload_model(full("Castle"), full("nature"), full("m.splat")).err(),
        Some(Status::BadRequest)
    );
    assert_eq!(
        upload_photo(full("Dawn"), full("0123456789abcdef0123456"), full("p.jpg")).err(),
        Some(Status::BadRequest)
    );
    assert_eq!(
        upload_video(full("Reel"), full("0123456789abcdef0123456z"), full("v.mp4")).err(),
        Some(Status::BadRequest)
    );
}

#[test]
fn receipts_name_the_url() {
    let r = model_receipt("m.splat".to_string(), true).unwrap();
    assert_eq!(r.url, "/static/models/m.splat");
    assert_eq!(r.filename, "m.splat");
    assert_eq!(r.success, Some(true));
    let r = photo_receipt("p.jpg".to_string(), true).unwrap();
    assert_eq!(r.url, "/static/photos/p.jpg");
    assert_eq!(r.filename, "p.jpg");
    assert_eq!(r.success, Some(true));
    let r = video_receipt("v.mp4".to_string(), true).unwrap();
    assert_eq!(r.url, "/static/videos/v.mp4");
    assert_eq!(r.filename, "v.mp4");
    assert_eq!(r.success, None);
}

#[test]
fn unrecorded_upload_is_an_internal_error() {
    assert_eq!(
        model_receipt("m.splat".to_string(), false).err(),
        Some(Status::InternalServerError)
    );
    assert_eq!(photo_receipt("p.jpg".to_string(), false).err(), Some(Status::InternalServerError));
    assert_eq!(video_receipt("v.mp4".to_string(), false).err(), Some(Status::InternalServerError));
}
