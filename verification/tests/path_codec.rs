use onsen_compo::comment_photos::PathError;
use onsen_compo::comment_photos::PhotoPath;
use onsen_compo::photo::Profile;

#[test]
fn it_encodes_each_profile_variant() {
    let pp = PhotoPath {
        analysis: "a1".to_string(),
        comment: "c1".to_string(),
        id: "p1".to_string(),
    };
    assert_eq!(pp.as_path(&Profile::ORIGINAL_JPG), "a1/c1/p1/o.jpg");
    assert_eq!(pp.as_path(&Profile::SCALE_1600_JPG), "a1/c1/p1/p1600.jpg");
    assert_eq!(pp.as_path(&Profile::THUMBNAIL_256_JPG), "a1/c1/p1/t256.jpg");
}

#[test]
fn it_returns_the_group_directory() {
    let pp = PhotoPath {
        analysis: "a1".to_string(),
        comment: "c1".to_string(),
        id: "p1".to_string(),
    };
    assert_eq!(pp.directory(), "a1/c1/p1");
}

#[test]
fn it_round_trips_encode_then_decode() {
    for profile in [
        Profile::ORIGINAL_JPG,
        Profile::SCALE_1600_JPG,
        Profile::THUMBNAIL_256_JPG,
    ] {
        let pp = PhotoPath {
            analysis: "rec-9".to_string(),
            comment: "cmt-3".to_string(),
            id: "ph-7".to_string(),
        };
        let encoded = pp.as_path(&profile);
        let back = PhotoPath::decode(&encoded).unwrap();
        assert_eq!(back.analysis, "rec-9");
        assert_eq!(back.comment, "cmt-3");
        assert_eq!(back.id, "ph-7");
    }
}

#[test]
fn it_rejects_a_path_with_too_few_segments() {
    let r = PhotoPath::decode("a/b");
    assert_eq!(r.unwrap_err(), PathError::MalformedPath);
}

#[test]
fn it_rejects_an_empty_path() {
    assert_eq!(PhotoPath::decode("").unwrap_err(), PathError::MalformedPath);
}

#[test]
fn it_rejects_three_segments() {
    assert_eq!(
        PhotoPath::decode("a/b/c").unwrap_err(),
        PathError::MalformedPath
    );
}

#[test]
fn it_decodes_the_last_segments_before_the_filename() {
    let back = PhotoPath::decode("extra/a1/c1/p1/o.jpg").unwrap();
    assert_eq!(back.analysis, "a1");
    assert_eq!(back.comment, "c1");
    assert_eq!(back.id, "p1");
}

#[test]
fn it_ignores_repeated_separators_when_decoding() {
    let back = PhotoPath::decode("a1//c1///p1/o.jpg").unwrap();
    assert_eq!(back.analysis, "a1");
    assert_eq!(back.comment, "c1");
    assert_eq!(back.id, "p1");
}
