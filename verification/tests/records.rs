use portfolio_backend::ids::ObjectId;
use portfolio_backend::records::{Model, Photo, Timestamp, Video};

fn oid(b: u8) -> ObjectId {
    ObjectId::from_bytes([b; 12])
}

#[test]
fn new_model_has_no_id_yet() {
    let before = Timestamp::now();
    let m = Model::new("Castle".to_string(), "model_x.splat".to_string(), oid(7));
    let after = Timestamp::now();
    assert!(m.id.is_none());
    assert_eq!(m.name, "Castle");
    assert_eq!(m.filename, "model_x.splat");
    assert!(m.category_id.same(&oid(7)));
    assert!(before.millis <= m.created_at.millis && m.created_at.millis <= after.millis);
}

#[test]
fn new_photo_and_video_keep_their_fields() {
    let p = Photo::new("Dawn".to_string(), "photo_x.jpg".to_string(), oid(1));
    assert!(p.id.is_none());
    assert_eq!((p.name.as_str(), p.filename.as_str()), ("Dawn", "photo_x.jpg"));
    assert!(p.category_id.same(&oid(1)));
    let v = Video::new("Reel".to_string(), "video_x.mp4".to_string(), oid(2));
    assert!(v.id.is_none());
    assert_eq!((v.name.as_str(), v.filename.as_str()), ("Reel", "video_x.mp4"));
    assert!(v.category_id.same(&oid(2)));
}

#[test]
fn model_response_of_a_stored_model() {
    let m = Model {
        id: Some(oid(0xab)),
        name: "Castle".to_string(),
        filename: "model_x.splat".to_string(),
        category_id: oid(0x01),
        created_at: Timestamp { millis: 1_700_000_000_000 },
    };
    let r = m.to_response();
    assert_eq!(r.id, "abababababababababababab");
    assert_eq!(r.name, "Castle");
    assert_eq!(r.filename, "model_x.splat");
    assert_eq!(r.url, "/static/models/model_x.splat");
    assert_eq!(r.category_id, "010101010101010101010101");
    assert_eq!(r.category_name, "");
    assert_eq!(r.created_at, Timestamp { millis: 1_700_000_000_000 });
}

#[test]
fn photo_and_video_urls() {
    let p = Photo {
        id: Some(oid(3)),
        name: "Dawn".to_string(),
        filename: "photo_x.png".to_string(),
        category_id: oid(4),
        created_at: Timestamp { millis: 5 },
    };
    let r = p.to_response();
    assert_eq!(r.url, "/static/photos/photo_x.png");
    assert_eq!(r.id, "030303030303030303030303");
    assert_eq!(r.category_id, "040404040404040404040404");
    let v = Video {
        id: Some(oid(5)),
        name: "Reel".to_string(),
        filename: "video_x.mp4".to_string(),
        category_id: oid(6),
        created_at: Timestamp { millis: -5 },
    };
    let r = v.to_response();
    assert_eq!(r.url, "/static/videos/video_x.mp4");
    assert_eq!(r.created_at.millis, -5);
    assert_eq!(r.category_name, "");
}

#[test]
fn response_with_stand_in_for_a_record_without_id() {
    let m = Model {
        id: None,
        name: "Castle".to_string(),
        filename: "f.splat".to_string(),
        category_id: oid(1),
        created_at: Timestamp { millis: 0 },
    };
    let r = m.to_response_with(oid(0x10));
    assert_eq!(r.id, "101010101010101010101010");
    let stored = Model { id: Some(oid(0x20)), ..m };
    assert_eq!(stored.to_response_with(oid(0x10)).id, "202020202020202020202020");
}

#[test]
fn response_of_a_record_without_id_gets_a_new_one() {
    let m = Video {
        id: None,
        name: "Reel".to_string(),
        filename: "v.mp4".to_string(),
        category_id: oid(1),
        created_at: Timestamp { millis: 0 },
    };
    let r = m.to_response();
    assert_eq!(r.id.len(), 24);
    assert!(r.id.chars().all(|c| c.is_ascii_digit() || ('a'..='f').contains(&c)));
    assert_eq!(r.filename, "v.mp4");
}
