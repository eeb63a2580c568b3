use onsen_compo::comment_photos::enqueue;
use onsen_compo::comment_photos::ConvertOrder;
use onsen_compo::comment_photos::PhotoPath;
use onsen_compo::comment_photos::DIRECTORY_UPLOAD;
use onsen_compo::photo::Profile;

fn sample_dest() -> PhotoPath {
    PhotoPath {
        analysis: "a1".to_string(),
        comment: "c1".to_string(),
        id: "p1".to_string(),
    }
}

#[test]
fn it_enqueues_one_order_per_profile() {
    let (orders, photos) = enqueue("/tmp/upload/p1.jpg", &sample_dest());
    assert_eq!(orders.len(), 3);
    assert_eq!(photos.len(), 3);
    let expected = [
        (Profile::ORIGINAL_JPG, "a1/c1/p1/o.jpg"),
        (Profile::SCALE_1600_JPG, "a1/c1/p1/p1600.jpg"),
        (Profile::THUMBNAIL_256_JPG, "a1/c1/p1/t256.jpg"),
    ];
    for (i, (profile, dest)) in expected.iter().enumerate() {
        assert_eq!(orders[i].id, "p1");
        assert_eq!(orders[i].src, "/tmp/upload/p1.jpg");
        assert_eq!(orders[i].profile, *profile);
        assert_eq!(orders[i].dest, *dest);
    }
}

#[test]
fn it_predicts_the_destination_paths_in_the_dry_run() {
    let (orders, photos) = enqueue("/tmp/upload/p1.jpg", &sample_dest());
    for (order, photo) in orders.iter().zip(photos.iter()) {
        assert_eq!(photo.id, order.id);
        assert_eq!(photo.profile, order.profile);
        assert_eq!(photo.path, order.dest);
    }
}

#[test]
fn it_names_order_files_by_photo_and_profile() {
    let (orders, _) = enqueue("/tmp/upload/p1.jpg", &sample_dest());
    assert_eq!(orders[0].order_file_name(), "p1_o.json");
    assert_eq!(orders[1].order_file_name(), "p1_p1600.json");
    assert_eq!(orders[2].order_file_name(), "p1_t256.json");
}

#[test]
fn it_writes_output_under_the_live_root() {
    let (orders, _) = enqueue("/tmp/upload/p1.jpg", &sample_dest());
    assert_eq!(
        orders[0].output_path(),
        format!("{}/a1/c1/p1/o.jpg", DIRECTORY_UPLOAD)
    );
}

#[test]
fn it_serializes_an_order_canonically() {
    let order = ConvertOrder {
        id: "p1".to_string(),
        src: "/tmp/u.jpg".to_string(),
        dest: "a1/c1/p1/o.jpg".to_string(),
        profile: Profile::ORIGINAL_JPG,
    };
    assert_eq!(
        order.to_json(),
        "{\"id\":\"p1\",\"src\":\"/tmp/u.jpg\",\"dest\":\"a1/c1/p1/o.jpg\",\"profile\":\"original_jpg\"}"
    );
}

#[test]
fn it_parses_what_it_writes() {
    for profile in [
        Profile::ORIGINAL_JPG,
        Profile::SCALE_1600_JPG,
        Profile::THUMBNAIL_256_JPG,
    ] {
        let order = ConvertOrder {
            id: "id-x".to_string(),
            src: "/tmp/with space.jpg".to_string(),
            dest: "a/b/c/o.jpg".to_string(),
            profile,
        };
        let back = ConvertOrder::from_json(&order.to_json()).unwrap();
        assert_eq!(back.id, order.id);
        assert_eq!(back.src, order.src);
        assert_eq!(back.dest, order.dest);
        assert_eq!(back.profile, order.profile);
    }
}

#[test]
fn it_escapes_quotes_and_backslashes() {
    let order = ConvertOrder {
        id: "a\"b\\c".to_string(),
        src: "/tmp/q\"q.jpg".to_string(),
        dest: "d/e/f/o.jpg".to_string(),
        profile: Profile::ORIGINAL_JPG,
    };
    let json = order.to_json();
    assert!(json.contains("a\\\"b\\\\c"));
    let back = ConvertOrder::from_json(&json).unwrap();
    assert_eq!(back.id, "a\"b\\c");
    assert_eq!(back.src, "/tmp/q\"q.jpg");
}

#[test]
fn it_agrees_with_a_generic_json_parser() {
    let order = ConvertOrder {
        id: "p1".to_string(),
        src: "/tmp/u \"x\".jpg".to_string(),
        dest: "a1/c1/p1/p1600.jpg".to_string(),
        profile: Profile::SCALE_1600_JPG,
    };
    let value: serde_json::Value = serde_json::from_str(&order.to_json()).unwrap();
    assert_eq!(value["id"].as_str().unwrap(), "p1");
    assert_eq!(value["src"].as_str().unwrap(), "/tmp/u \"x\".jpg");
    assert_eq!(value["dest"].as_str().unwrap(), "a1/c1/p1/p1600.jpg");
    assert_eq!(value["profile"].as_str().unwrap(), "scale_1600_jpg");
}

#[test]
fn it_rejects_non_canonical_or_broken_json() {
    assert!(ConvertOrder::from_json("").is_none());
    assert!(ConvertOrder::from_json("{}").is_none());
    assert!(ConvertOrder::from_json("{\"id\":\"p1\"}").is_none());
    assert!(ConvertOrder::from_json(
        "{\"id\":\"p1\",\"src\":\"s\",\"dest\":\"d\",\"profile\":\"webp\"}"
    )
    .is_none());
    assert!(ConvertOrder::from_json(
        "{\"id\":\"p1\",\"src\":\"s\",\"dest\":\"d\",\"profile\":\"original_jpg\""
    )
    .is_none());
    assert!(ConvertOrder::from_json(
        "{ \"id\":\"p1\",\"src\":\"s\",\"dest\":\"d\",\"profile\":\"original_jpg\"}"
    )
    .is_none());
    assert!(ConvertOrder::from_json(
        "{\"id\":\"p\\1\",\"src\":\"s\",\"dest\":\"d\",\"profile\":\"original_jpg\"}"
    )
    .is_none());
}

#[test]
fn it_builds_the_dry_run_descriptor_from_the_order() {
    let order = ConvertOrder {
        id: "p9".to_string(),
        src: "/tmp/u.jpg".to_string(),
        dest: "a/b/p9/t256.jpg".to_string(),
        profile: Profile::THUMBNAIL_256_JPG,
    };
    let photo = order.dryrun();
    assert_eq!(photo.id, "p9");
    assert_eq!(photo.profile, Profile::THUMBNAIL_256_JPG);
    assert_eq!(photo.path, "a/b/p9/t256.jpg");
}
